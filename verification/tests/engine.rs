use firecore_battle::ailment::{Ailment, AilmentLength, LiveAilment};
use firecore_battle::applier::apply_move;
use firecore_battle::data::BattleType;
use firecore_battle::default_engine::{
    accuracy_hits, ailment_usage, chance_triggers, chance_usage, move_usage, resolve_target,
    throw_move, DefaultMoveEngine, DefaultMoveError, MoveExecution, MoveUse, MAX_NESTING,
};
use firecore_battle::engine::{DamageFormula, MoveEngine};
use firecore_battle::moves::{
    ClientMove, ClientMoveAction, DamageKind, DamageResult, MoveCancel, MoveData, MoveResult,
    MoveTarget, OwnedMove,
};
use firecore_battle::party::{ActivePokemon, BattleParty};
use firecore_battle::player::{BattlePlayer, PlayerSettings};
use firecore_battle::pokemon::{BattlePokemon, GrowthRate, Indexed, PokemonIdentifier};
use firecore_battle::stat::{BattleStatType, StatStages};
use firecore_pokedex::moves::MoveCategory;
use firecore_pokedex::types::{Effective, PokemonType};
use rand::rngs::StdRng;
use rand::SeedableRng;

struct Fixed(u16);

impl DamageFormula for Fixed {
    fn damage_kind(
        &self,
        _random: &mut StdRng,
        _user: &BattlePokemon,
        _target: &BattlePokemon,
        _kind: DamageKind,
        _category: MoveCategory,
        _move_type: PokemonType,
        _crit_rate: u8,
    ) -> DamageResult {
        DamageResult { damage: self.0, effective: Effective::SuperEffective, crit: true }
    }
}

fn move_data(id: u128, accuracy: Option<u8>, target: MoveTarget) -> MoveData {
    MoveData {
        id,
        category: MoveCategory::Physical,
        pokemon_type: PokemonType::Normal,
        accuracy,
        power: Some(40),
        pp: 10,
        priority: 0,
        target,
        contact: true,
        crit_rate: 0,
    }
}

fn creature(hp: u16, max_hp: u16) -> BattlePokemon {
    BattlePokemon {
        species: 1,
        primary: PokemonType::Normal,
        secondary: None,
        level: 5,
        hp,
        max_hp,
        attack: 10,
        defense: 10,
        sp_attack: 10,
        sp_defense: 10,
        speed: 10,
        base_exp: 64,
        growth: GrowthRate::Medium,
        experience: 0,
        ailment: None,
        stages: StatStages::new(),
        flinch: false,
        moves: vec![OwnedMove::new(move_data(1, None, MoveTarget::Opponent))],
        learnset: Vec::new(),
        learnable_moves: Vec::new(),
        known: false,
    }
}

fn player(id: u64, pokemon: Vec<BattlePokemon>, slots: usize) -> BattlePlayer {
    let active = (0..slots)
        .map(|index| {
            if index < pokemon.len() {
                Some(ActivePokemon { index, queued_move: None })
            } else {
                None
            }
        })
        .collect();
    BattlePlayer::new(BattleParty { id, active, pokemon }, PlayerSettings { gains_exp: false })
}

fn duel(user: BattlePokemon, target: BattlePokemon) -> Vec<BattlePlayer> {
    vec![player(1, vec![user], 1), player(2, vec![target], 1)]
}

fn engine_with(damage: u16, id: u128, actions: Vec<MoveUse>) -> DefaultMoveEngine<Fixed> {
    let mut engine = DefaultMoveEngine::new(Fixed(damage));
    engine.moves.insert(id, MoveExecution::Actions(actions));
    engine
}

const USER: PokemonIdentifier = PokemonIdentifier(1, 0);
const TARGET: PokemonIdentifier = PokemonIdentifier(2, 0);

fn run(
    engine: &DefaultMoveEngine<Fixed>,
    players: &Vec<BattlePlayer>,
    m: &MoveData,
    seed: u64,
) -> Vec<Indexed<MoveResult>> {
    let mut random = StdRng::seed_from_u64(seed);
    match engine.execute(&mut random, m, USER, Some(TARGET), players) {
        Ok(output) => output,
        Err(error) => panic!("the engine failed: {:?}", error),
    }
}

#[test]
fn drain_damages_the_target_and_heals_the_user() {
    let engine = engine_with(40, 1, vec![MoveUse::Drain(DamageKind::Power(40), 50)]);
    let mut players = duel(creature(90, 100), creature(100, 100));
    let m = move_data(1, None, MoveTarget::Opponent);
    let output = run(&engine, &players, &m, 7);
    assert_eq!(output.len(), 2);
    assert_eq!(output[0].0, TARGET);
    assert!(matches!(output[0].1, MoveResult::Damage(d) if d.damage == 40 && d.crit));
    assert_eq!(output[1].0, USER);
    assert!(matches!(output[1].1, MoveResult::Heal(20)));
    let entry = apply_move(&mut players, BattleType::Trainer, USER, 0, 1, &output);
    assert_eq!(players[1].party.pokemon[0].hp, 60);
    assert_eq!(players[0].party.pokemon[0].hp, 100);
    assert_eq!(players[0].party.pokemon[0].moves[0].1, 9);
    assert_eq!(entry.0, USER);
    match entry.1 {
        ClientMove::Move(id, cost, actions) => {
            assert_eq!(id, 1);
            assert_eq!(cost, 1);
            assert_eq!(actions.len(), 2);
            assert_eq!(actions[0].0, TARGET);
            assert!(matches!(actions[0].1, ClientMoveAction::SetDamage(d) if d.hp.hp == 60));
            assert_eq!(actions[1].0, USER);
            assert!(matches!(actions[1].1, ClientMoveAction::SetHP(p) if p.hp == 100));
        }
        other => panic!("unexpected entry {:?}", other),
    }
}

#[test]
fn drain_with_a_negative_percentage_takes_from_the_user() {
    let engine = engine_with(45, 1, vec![MoveUse::Drain(DamageKind::Power(40), -50)]);
    let mut players = duel(creature(90, 100), creature(100, 100));
    let m = move_data(1, None, MoveTarget::Opponent);
    let output = run(&engine, &players, &m, 7);
    assert!(matches!(output[1].1, MoveResult::Heal(-23)));
    apply_move(&mut players, BattleType::Trainer, USER, 0, 1, &output);
    assert_eq!(players[1].party.pokemon[0].hp, 55);
    assert_eq!(players[0].party.pokemon[0].hp, 67);
}

#[test]
fn a_failed_accuracy_roll_emits_only_a_miss() {
    let engine = engine_with(
        40,
        1,
        vec![MoveUse::Damage(DamageKind::Power(40)), MoveUse::Flinch],
    );
    let m = move_data(1, Some(0), MoveTarget::Opponent);
    for seed in 0..50 {
        let mut players = duel(creature(90, 100), creature(100, 100));
        let output = run(&engine, &players, &m, seed);
        assert_eq!(output.len(), 1);
        assert_eq!(output[0].0, USER);
        assert!(matches!(output[0].1, MoveResult::Miss));
        let entry = apply_move(&mut players, BattleType::Trainer, USER, 0, 1, &output);
        assert_eq!(players[1].party.pokemon[0].hp, 100);
        assert!(!players[1].party.pokemon[0].flinch);
        assert_eq!(players[1].party.pokemon[0].ailment, None);
        assert_eq!(players[0].party.pokemon[0].hp, 90);
        match entry.1 {
            ClientMove::Move(_, _, actions) => {
                assert_eq!(actions.len(), 1);
                assert_eq!(actions[0].0, USER);
                assert!(matches!(actions[0].1, ClientMoveAction::Miss));
            }
            other => panic!("unexpected entry {:?}", other),
        }
    }
}

#[test]
fn a_move_of_full_accuracy_never_misses() {
    let engine = engine_with(40, 1, vec![MoveUse::Damage(DamageKind::Power(40))]);
    let players = duel(creature(90, 100), creature(100, 100));
    for accuracy in [None, Some(100), Some(255)] {
        let m = move_data(1, accuracy, MoveTarget::Opponent);
        for seed in 0..50 {
            let output = run(&engine, &players, &m, seed);
            assert_eq!(output.len(), 1);
            assert_eq!(output[0].0, TARGET);
            assert!(matches!(output[0].1, MoveResult::Damage(_)));
        }
    }
}

#[test]
fn accuracy_is_a_roll_below_the_accuracy() {
    assert!(accuracy_hits(None, 99));
    assert!(accuracy_hits(Some(50), 49));
    assert!(!accuracy_hits(Some(50), 50));
    assert!(!accuracy_hits(Some(0), 0));
    assert!(accuracy_hits(Some(100), 99));
    let mut random = StdRng::seed_from_u64(3);
    let mut hits = 0;
    for _ in 0..10_000 {
        if throw_move(&mut random, Some(70)) {
            hits += 1;
        }
    }
    assert!(hits > 6_700 && hits < 7_300, "{} hits", hits);
}

#[test]
fn an_ailment_is_granted_to_a_target_without_one() {
    let engine = engine_with(
        0,
        1,
        vec![MoveUse::Ailment(Some((Ailment::Sleep, AilmentLength::Temporary(2, 4))), 100)],
    );
    let players = duel(creature(90, 100), creature(100, 100));
    let m = move_data(1, None, MoveTarget::Opponent);
    let mut seen = [false; 5];
    for seed in 0..200 {
        let output = run(&engine, &players, &m, seed);
        assert_eq!(output.len(), 1);
        assert_eq!(output[0].0, TARGET);
        match output[0].1 {
            MoveResult::Ailment(Some(live)) => {
                assert_eq!(live.ailment, Ailment::Sleep);
                let turns = live.turns.expect("a temporary ailment has a duration");
                assert!((2..=4).contains(&turns));
                seen[turns as usize] = true;
            }
            other => panic!("unexpected outcome {:?}", other),
        }
    }
    assert!(seen[2] && seen[3] && seen[4]);
}

#[test]
fn a_permanent_ailment_has_no_duration() {
    let engine = engine_with(
        0,
        1,
        vec![MoveUse::Ailment(Some((Ailment::Burn, AilmentLength::Permanent)), 100)],
    );
    let players = duel(creature(90, 100), creature(100, 100));
    let m = move_data(1, None, MoveTarget::Opponent);
    let output = run(&engine, &players, &m, 1);
    assert_eq!(output.len(), 1);
    assert!(matches!(
        output[0].1,
        MoveResult::Ailment(Some(LiveAilment { ailment: Ailment::Burn, turns: None }))
    ));
}

#[test]
fn an_afflicted_target_is_granted_no_second_ailment() {
    let engine = engine_with(
        0,
        1,
        vec![MoveUse::Ailment(Some((Ailment::Sleep, AilmentLength::Temporary(2, 4))), 100)],
    );
    let mut target = creature(100, 100);
    let burn = LiveAilment { ailment: Ailment::Burn, turns: None };
    target.ailment = Some(burn);
    let mut players = duel(creature(90, 100), target);
    let m = move_data(1, None, MoveTarget::Opponent);
    for seed in 0..50 {
        let output = run(&engine, &players, &m, seed);
        assert!(output.is_empty());
        apply_move(&mut players, BattleType::Trainer, USER, 0, 1, &output);
        assert_eq!(players[1].party.pokemon[0].ailment, Some(burn));
    }
}

#[test]
fn an_ailment_is_cleared_only_where_there_is_one() {
    let engine = engine_with(0, 1, vec![MoveUse::Ailment(None, 100)]);
    let m = move_data(1, None, MoveTarget::Opponent);
    let mut clean = duel(creature(90, 100), creature(100, 100));
    let output = run(&engine, &clean, &m, 1);
    assert!(output.is_empty());
    apply_move(&mut clean, BattleType::Trainer, USER, 0, 1, &output);
    assert_eq!(clean[1].party.pokemon[0].ailment, None);
    let mut target = creature(100, 100);
    target.ailment = Some(LiveAilment { ailment: Ailment::Poison, turns: None });
    let mut afflicted = duel(creature(90, 100), target);
    let output = run(&engine, &afflicted, &m, 1);
    assert_eq!(output.len(), 1);
    assert_eq!(output[0].0, TARGET);
    assert!(matches!(output[0].1, MoveResult::Ailment(None)));
    apply_move(&mut afflicted, BattleType::Trainer, USER, 0, 1, &output);
    assert_eq!(afflicted[1].party.pokemon[0].ailment, None);
}

#[test]
fn an_ailment_of_no_chance_is_never_granted() {
    let engine = engine_with(
        0,
        1,
        vec![
            MoveUse::Ailment(Some((Ailment::Sleep, AilmentLength::Permanent)), 0),
            MoveUse::Ailment(None, 0),
        ],
    );
    let mut target = creature(100, 100);
    target.ailment = Some(LiveAilment { ailment: Ailment::Poison, turns: None });
    let m = move_data(1, None, MoveTarget::Opponent);
    for seed in 0..50 {
        assert!(run(&engine, &duel(creature(90, 100), creature(100, 100)), &m, seed).is_empty());
    }
    let afflicted = duel(creature(90, 100), target);
    for seed in 0..50 {
        assert!(run(&engine, &afflicted, &m, seed).is_empty());
    }
}

#[test]
fn a_stage_at_its_bound_is_not_moved() {
    let engine = engine_with(
        0,
        1,
        vec![
            MoveUse::Stat(BattleStatType::Attack, 1),
            MoveUse::Stat(BattleStatType::Defense, -1),
            MoveUse::Stat(BattleStatType::Speed, 0),
        ],
    );
    let mut target = creature(100, 100);
    target.stages.attack = 6;
    let players = duel(creature(90, 100), target);
    let m = move_data(1, None, MoveTarget::Opponent);
    let output = run(&engine, &players, &m, 1);
    assert_eq!(output.len(), 1);
    assert_eq!(output[0].0, TARGET);
    assert!(matches!(output[0].1, MoveResult::Stat(BattleStatType::Defense, -1)));
}

#[test]
fn flinch_is_always_emitted() {
    let engine = engine_with(0, 1, vec![MoveUse::Flinch]);
    let players = duel(creature(90, 100), creature(100, 100));
    let m = move_data(1, None, MoveTarget::Opponent);
    let output = run(&engine, &players, &m, 1);
    assert_eq!(output.len(), 1);
    assert_eq!(output[0].0, TARGET);
    assert!(matches!(output[0].1, MoveResult::Cancel(MoveCancel::Flinch)));
}

#[test]
fn a_conditional_list_triggers_at_the_rate_of_its_chance() {
    assert!(chance_triggers(29, 30));
    assert!(!chance_triggers(30, 30));
    assert!(!chance_triggers(0, 0));
    assert!(chance_triggers(99, 100));
    let user = creature(90, 100);
    let target = creature(100, 100);
    let m = move_data(1, None, MoveTarget::Opponent);
    let actions = vec![MoveUse::Chance(vec![MoveUse::Flinch], 30)];
    let mut random = StdRng::seed_from_u64(11);
    let mut results = Vec::new();
    let trials = 20_000;
    for _ in 0..trials {
        move_usage(
            &Fixed(0),
            USER,
            &user,
            &mut random,
            &mut results,
            &actions,
            &m,
            TARGET,
            &target,
            MAX_NESTING,
        );
    }
    let rate = results.len() as f64 / trials as f64;
    assert!((rate - 0.30).abs() < 0.02, "rate {}", rate);
}

#[test]
fn a_conditional_list_of_full_or_no_chance() {
    let user = creature(90, 100);
    let target = creature(100, 100);
    let m = move_data(1, None, MoveTarget::Opponent);
    let mut random = StdRng::seed_from_u64(5);
    let always = vec![MoveUse::Chance(
        vec![MoveUse::Flinch, MoveUse::Damage(DamageKind::Constant(5))],
        100,
    )];
    let never = vec![MoveUse::Chance(vec![MoveUse::Flinch], 0)];
    for _ in 0..200 {
        let mut results = Vec::new();
        move_usage(
            &Fixed(5),
            USER,
            &user,
            &mut random,
            &mut results,
            &always,
            &m,
            TARGET,
            &target,
            MAX_NESTING,
        );
        assert_eq!(results.len(), 2);
        assert!(matches!(results[0].1, MoveResult::Cancel(MoveCancel::Flinch)));
        assert!(matches!(results[1].1, MoveResult::Damage(d) if d.damage == 5));
        let mut results = Vec::new();
        move_usage(
            &Fixed(5),
            USER,
            &user,
            &mut random,
            &mut results,
            &never,
            &m,
            TARGET,
            &target,
            MAX_NESTING,
        );
        assert!(results.is_empty());
    }
}

fn nested(levels: usize) -> MoveUse {
    let mut action = MoveUse::Flinch;
    for _ in 0..levels {
        action = MoveUse::Chance(vec![action], 100);
    }
    action
}

#[test]
fn lists_nested_too_deep_are_not_interpreted() {
    let user = creature(90, 100);
    let target = creature(100, 100);
    let m = move_data(1, None, MoveTarget::Opponent);
    let mut random = StdRng::seed_from_u64(5);
    let mut results = Vec::new();
    let reachable = vec![nested(MAX_NESTING)];
    move_usage(
        &Fixed(0),
        USER,
        &user,
        &mut random,
        &mut results,
        &reachable,
        &m,
        TARGET,
        &target,
        MAX_NESTING,
    );
    assert_eq!(results.len(), 1);
    let mut results = Vec::new();
    let too_deep = vec![nested(MAX_NESTING + 1)];
    move_usage(
        &Fixed(0),
        USER,
        &user,
        &mut random,
        &mut results,
        &too_deep,
        &m,
        TARGET,
        &target,
        MAX_NESTING,
    );
    assert!(results.is_empty());
    assert_eq!(nested(MAX_NESTING).size(), 1);
    assert_eq!(nested(MAX_NESTING + 1).size(), 0);
}

#[test]
fn outcomes_are_appended_to_those_that_are_there() {
    let user = creature(90, 100);
    let target = creature(100, 100);
    let m = move_data(1, None, MoveTarget::Opponent);
    let mut random = StdRng::seed_from_u64(5);
    let mut results = vec![Indexed(USER, MoveResult::Miss)];
    move_usage(
        &Fixed(7),
        USER,
        &user,
        &mut random,
        &mut results,
        &vec![MoveUse::Damage(DamageKind::Constant(7)), MoveUse::Flinch],
        &m,
        TARGET,
        &target,
        MAX_NESTING,
    );
    assert_eq!(results.len(), 3);
    assert!(matches!(results[0].1, MoveResult::Miss));
    assert!(matches!(results[1].1, MoveResult::Damage(d) if d.damage == 7));
    assert!(matches!(results[2].1, MoveResult::Cancel(MoveCancel::Flinch)));
}

#[test]
fn the_size_estimate_counts_outcomes() {
    assert_eq!(MoveUse::Damage(DamageKind::Power(1)).size(), 1);
    assert_eq!(MoveUse::Drain(DamageKind::Power(1), 50).size(), 2);
    assert_eq!(MoveUse::Flinch.size(), 1);
    assert_eq!(MoveUse::Stat(BattleStatType::Speed, 1).size(), 1);
    assert_eq!(MoveUse::Ailment(None, 10).size(), 1);
    let list = MoveUse::Chance(
        vec![
            MoveUse::Drain(DamageKind::Power(1), 50),
            MoveUse::Flinch,
            MoveUse::Chance(vec![MoveUse::Flinch, MoveUse::Flinch], 10),
        ],
        50,
    );
    assert_eq!(list.size(), 5);
    assert_eq!(MoveUse::Chance(Vec::new(), 50).size(), 0);
    assert_eq!(
        MoveExecution::Actions(vec![MoveUse::Drain(DamageKind::Power(1), 50), MoveUse::Flinch])
            .size(),
        3
    );
    assert_eq!(MoveExecution::Actions(Vec::new()).size(), 0);
    assert_eq!(MoveExecution::Script.size(), 1);
    assert_eq!(MoveExecution::Undefined.size(), 1);
}

#[test]
fn effects_are_checked_for_validity() {
    assert!(MoveExecution::Script.is_valid());
    assert!(MoveExecution::Undefined.is_valid());
    assert!(MoveExecution::Actions(vec![MoveUse::Ailment(None, 100)]).is_valid());
    assert!(!MoveExecution::Actions(vec![MoveUse::Ailment(None, 101)]).is_valid());
    assert!(!MoveExecution::Actions(vec![MoveUse::Ailment(
        Some((Ailment::Sleep, AilmentLength::Temporary(3, 2))),
        50
    )])
    .is_valid());
    assert!(MoveExecution::Actions(vec![MoveUse::Ailment(
        Some((Ailment::Sleep, AilmentLength::Temporary(2, 2))),
        50
    )])
    .is_valid());
    assert!(!MoveExecution::Actions(vec![MoveUse::Chance(
        vec![MoveUse::Flinch, MoveUse::Ailment(None, 200)],
        50
    )])
    .is_valid());
    assert!(MoveExecution::Actions(vec![MoveUse::Chance(vec![MoveUse::Flinch], 200)]).is_valid());
    assert!(AilmentLength::Permanent.is_valid());
    assert!(!AilmentLength::Temporary(1, 0).is_valid());
}

#[test]
fn an_unknown_move_is_missing() {
    let engine = engine_with(0, 1, vec![MoveUse::Flinch]);
    let players = duel(creature(90, 100), creature(100, 100));
    let mut random = StdRng::seed_from_u64(1);
    let m = move_data(2, None, MoveTarget::Opponent);
    let output = engine.execute(&mut random, &m, USER, Some(TARGET), &players);
    assert!(matches!(output, Err(DefaultMoveError::Missing)));
}

#[test]
fn an_undefined_effect_is_missing() {
    let mut engine = DefaultMoveEngine::new(Fixed(0));
    engine.moves.insert(1, MoveExecution::Undefined);
    let players = duel(creature(90, 100), creature(100, 100));
    let mut random = StdRng::seed_from_u64(1);
    let m = move_data(1, None, MoveTarget::Opponent);
    let output = engine.execute(&mut random, &m, USER, Some(TARGET), &players);
    assert!(matches!(output, Err(DefaultMoveError::Missing)));
}

#[test]
fn a_scripted_effect_has_no_engine() {
    let mut engine = DefaultMoveEngine::new(Fixed(0));
    engine.moves.insert(1, MoveExecution::Script);
    let players = duel(creature(90, 100), creature(100, 100));
    let mut random = StdRng::seed_from_u64(1);
    let m = move_data(1, None, MoveTarget::Opponent);
    let output = engine.execute(&mut random, &m, USER, Some(TARGET), &players);
    assert!(matches!(output, Err(DefaultMoveError::NoScriptEngine)));
}

#[test]
fn a_user_that_is_not_there_has_no_target() {
    let engine = engine_with(0, 1, vec![MoveUse::Flinch]);
    let players = duel(creature(90, 100), creature(100, 100));
    let mut random = StdRng::seed_from_u64(1);
    let m = move_data(1, None, MoveTarget::Opponent);
    for user in [PokemonIdentifier(1, 1), PokemonIdentifier(3, 0)] {
        let output = engine.execute(&mut random, &m, user, Some(TARGET), &players);
        assert!(matches!(output, Err(DefaultMoveError::NoTarget)));
    }
}

#[test]
fn errors_have_words() {
    assert_eq!(DefaultMoveError::Missing.message(), "Missing");
    assert_eq!(DefaultMoveError::NoScriptEngine.message(), "NoScriptEngine");
    assert_eq!(DefaultMoveError::NoTarget.message(), "NoTarget");
}

#[test]
fn a_target_that_is_not_there_is_passed_over() {
    let engine = engine_with(9, 1, vec![MoveUse::Damage(DamageKind::Constant(9))]);
    let players = duel(creature(90, 100), creature(100, 100));
    let mut random = StdRng::seed_from_u64(1);
    let m = move_data(1, None, MoveTarget::Opponent);
    let output = engine
        .execute(&mut random, &m, USER, Some(PokemonIdentifier(2, 5)), &players)
        .expect("the move is known");
    assert!(output.is_empty());
}

#[test]
fn every_target_is_interpreted_in_order() {
    let engine = engine_with(9, 1, vec![MoveUse::Damage(DamageKind::Constant(9))]);
    let players = vec![
        player(1, vec![creature(90, 100), creature(80, 100)], 2),
        player(2, vec![creature(70, 100), creature(60, 100)], 2),
        player(3, vec![creature(50, 100)], 2),
    ];
    let mut random = StdRng::seed_from_u64(1);
    let ids = |m: MoveData, random: &mut StdRng| -> Vec<PokemonIdentifier> {
        engine
            .execute(random, &m, USER, None, &players)
            .expect("the move is known")
            .iter()
            .map(|outcome| outcome.0)
            .collect()
    };
    assert_eq!(
        ids(move_data(1, None, MoveTarget::AllOpponents), &mut random),
        vec![PokemonIdentifier(2, 0), PokemonIdentifier(2, 1), PokemonIdentifier(3, 0)]
    );
    assert_eq!(
        ids(move_data(1, None, MoveTarget::Allies), &mut random),
        vec![PokemonIdentifier(1, 1)]
    );
    assert_eq!(
        ids(move_data(1, None, MoveTarget::UserAndAllies), &mut random),
        vec![PokemonIdentifier(1, 0), PokemonIdentifier(1, 1)]
    );
    assert_eq!(
        ids(move_data(1, None, MoveTarget::AllOtherPokemon), &mut random),
        vec![
            PokemonIdentifier(1, 1),
            PokemonIdentifier(2, 0),
            PokemonIdentifier(2, 1),
            PokemonIdentifier(3, 0)
        ]
    );
    assert_eq!(ids(move_data(1, None, MoveTarget::AllPokemon), &mut random).len(), 5);
    assert_eq!(ids(move_data(1, None, MoveTarget::User), &mut random), vec![USER]);
    assert_eq!(ids(move_data(1, None, MoveTarget::UserOrAlly), &mut random), vec![USER]);
    assert!(ids(move_data(1, None, MoveTarget::Ally), &mut random).is_empty());
    assert!(ids(move_data(1, None, MoveTarget::NoTarget), &mut random).is_empty());
}

#[test]
fn a_random_opponent_is_one_of_the_opponents() {
    let engine = engine_with(9, 1, vec![MoveUse::Damage(DamageKind::Constant(9))]);
    let players = vec![
        player(1, vec![creature(90, 100), creature(80, 100)], 2),
        player(2, vec![creature(70, 100), creature(60, 100)], 2),
        player(3, vec![creature(50, 100)], 2),
    ];
    let opponents =
        [PokemonIdentifier(2, 0), PokemonIdentifier(2, 1), PokemonIdentifier(3, 0)];
    let mut seen = [false; 3];
    for kind in [MoveTarget::RandomOpponent, MoveTarget::Opponent, MoveTarget::Any] {
        for seed in 0..100 {
            let mut random = StdRng::seed_from_u64(seed);
            let output = engine
                .execute(&mut random, &move_data(1, None, kind), USER, None, &players)
                .expect("the move is known");
            assert_eq!(output.len(), 1);
            let at = opponents
                .iter()
                .position(|id| *id == output[0].0)
                .expect("the target is an opponent");
            seen[at] = true;
        }
    }
    assert!(seen.iter().all(|seen| *seen));
}

#[test]
fn a_participant_that_left_is_no_target() {
    let engine = engine_with(9, 1, vec![MoveUse::Damage(DamageKind::Constant(9))]);
    let mut players = vec![
        player(1, vec![creature(90, 100)], 1),
        player(2, vec![creature(70, 100)], 1),
        player(3, vec![creature(50, 100)], 1),
    ];
    players[1].deactivated = true;
    let mut random = StdRng::seed_from_u64(1);
    let output = engine
        .execute(&mut random, &move_data(1, None, MoveTarget::AllOpponents), USER, None, &players)
        .expect("the move is known");
    assert_eq!(output.len(), 1);
    assert_eq!(output[0].0, PokemonIdentifier(3, 0));
}

#[test]
fn a_new_engine_knows_no_move() {
    let engine = DefaultMoveEngine::new(Fixed(3));
    assert!(engine.moves.is_empty());
    assert_eq!(engine.formula.0, 3);
}

#[test]
fn an_effect_that_is_not_well_formed_is_missing() {
    let engine = engine_with(0, 1, vec![MoveUse::Ailment(None, 101)]);
    let players = duel(creature(90, 100), creature(100, 100));
    let mut random = StdRng::seed_from_u64(1);
    let m = move_data(1, None, MoveTarget::Opponent);
    let output = engine.execute(&mut random, &m, USER, Some(TARGET), &players);
    assert!(matches!(output, Err(DefaultMoveError::Missing)));
}

#[test]
fn a_roll_that_fails_gives_one_miss_and_one_that_lands_the_outcomes() {
    let user = creature(90, 100);
    let first = creature(100, 100);
    let second = creature(100, 100);
    let m = move_data(1, Some(50), MoveTarget::AllOpponents);
    let actions = vec![MoveUse::Damage(DamageKind::Constant(9)), MoveUse::Flinch];
    let mut random = StdRng::seed_from_u64(5);
    let mut results = Vec::new();
    let other = PokemonIdentifier(3, 0);
    resolve_target(true, &Fixed(9), USER, &user, &mut random, &mut results, &actions, &m, TARGET, &first);
    resolve_target(false, &Fixed(9), USER, &user, &mut random, &mut results, &actions, &m, other, &second);
    assert_eq!(results.len(), 3);
    assert_eq!(results[0].0, TARGET);
    assert!(matches!(results[0].1, MoveResult::Damage(d) if d.damage == 9));
    assert_eq!(results[1].0, TARGET);
    assert!(matches!(results[1].1, MoveResult::Cancel(MoveCancel::Flinch)));
    assert_eq!(results[2].0, USER);
    assert!(matches!(results[2].1, MoveResult::Miss));
    let mut alone = Vec::new();
    resolve_target(false, &Fixed(9), USER, &user, &mut random, &mut alone, &actions, &m, TARGET, &first);
    assert_eq!(alone.len(), 1);
    assert_eq!(alone[0].0, USER);
    assert!(matches!(alone[0].1, MoveResult::Miss));
}

#[test]
fn a_conditional_list_is_interpreted_when_it_triggers() {
    let user = creature(90, 100);
    let target = creature(100, 100);
    let m = move_data(1, None, MoveTarget::Opponent);
    let nested = vec![MoveUse::Flinch, MoveUse::Stat(BattleStatType::Speed, -1)];
    let mut random = StdRng::seed_from_u64(5);
    let mut results = vec![Indexed(USER, MoveResult::Miss)];
    chance_usage(false, &Fixed(0), USER, &user, &mut random, &mut results, &nested, &m, TARGET, &target, MAX_NESTING);
    assert_eq!(results.len(), 1);
    chance_usage(true, &Fixed(0), USER, &user, &mut random, &mut results, &nested, &m, TARGET, &target, MAX_NESTING);
    assert_eq!(results.len(), 3);
    assert!(matches!(results[1].1, MoveResult::Cancel(MoveCancel::Flinch)));
    assert!(matches!(results[2].1, MoveResult::Stat(BattleStatType::Speed, -1)));
    chance_usage(true, &Fixed(0), USER, &user, &mut random, &mut results, &nested, &m, TARGET, &target, 0);
    assert_eq!(results.len(), 3);
}

#[test]
fn an_ailment_action_follows_its_roll() {
    let clean = creature(100, 100);
    let mut burned = creature(100, 100);
    burned.ailment = Some(LiveAilment { ailment: Ailment::Burn, turns: None });
    let grant = Some((Ailment::Sleep, AilmentLength::Temporary(1, 3)));
    let mut random = StdRng::seed_from_u64(5);
    let mut results = Vec::new();
    ailment_usage(false, grant, &mut random, &mut results, TARGET, &clean);
    ailment_usage(true, grant, &mut random, &mut results, TARGET, &burned);
    ailment_usage(false, None, &mut random, &mut results, TARGET, &burned);
    ailment_usage(true, None, &mut random, &mut results, TARGET, &clean);
    assert!(results.is_empty());
    ailment_usage(true, grant, &mut random, &mut results, TARGET, &clean);
    assert_eq!(results.len(), 1);
    assert_eq!(results[0].0, TARGET);
    match results[0].1 {
        MoveResult::Ailment(Some(live)) => {
            assert_eq!(live.ailment, Ailment::Sleep);
            assert!(matches!(live.turns, Some(1..=3)));
        }
        other => panic!("unexpected outcome {:?}", other),
    }
    ailment_usage(true, None, &mut random, &mut results, TARGET, &burned);
    assert_eq!(results.len(), 2);
    assert!(matches!(results[1].1, MoveResult::Ailment(None)));
}
