use firecore_battle::ailment::{
    clears_ailment, grants_ailment, Ailment, AilmentLength, LiveAilment,
};
use firecore_battle::data::{BattleData, BattleType};
use firecore_battle::moves::{
    drain_healing, ClientMoveAction, DamageResult, HealthPercent, MoveCancel, MoveData,
    MoveResult, MoveTarget, OwnedMove,
};
use firecore_battle::pokemon::{
    effective_stat, BattlePokemon, GrowthRate, ItemAction, LearnableMove,
};
use firecore_battle::stat::{BattleStatType, StatStages, MAX_STAGE, MIN_STAGE};
use firecore_pokedex::moves::MoveCategory;
use firecore_pokedex::types::{Effective, PokemonType};
use rand::SeedableRng;

fn move_data(id: u128, pp: u8) -> MoveData {
    MoveData {
        id,
        category: MoveCategory::Physical,
        pokemon_type: PokemonType::Normal,
        accuracy: None,
        power: Some(40),
        pp,
        priority: 0,
        target: MoveTarget::Opponent,
        contact: true,
        crit_rate: 0,
    }
}

fn creature(hp: u16, max_hp: u16) -> BattlePokemon {
    BattlePokemon {
        species: 1,
        primary: PokemonType::Normal,
        secondary: None,
        level: 5,
        hp,
        max_hp,
        attack: 10,
        defense: 10,
        sp_attack: 10,
        sp_defense: 10,
        speed: 10,
        base_exp: 64,
        growth: GrowthRate::Medium,
        experience: 0,
        ailment: None,
        stages: StatStages::new(),
        flinch: false,
        moves: vec![OwnedMove::new(move_data(1, 35))],
        learnset: Vec::new(),
        learnable_moves: Vec::new(),
        known: false,
    }
}

fn damage(amount: u16) -> MoveResult {
    MoveResult::Damage(DamageResult { damage: amount, effective: Effective::Effective, crit: false })
}

#[test]
fn damage_is_subtracted_from_health() {
    let mut target = creature(100, 100);
    let record = target.apply(damage(40));
    assert_eq!(target.hp, 60);
    match record {
        Some(ClientMoveAction::SetDamage(shown)) => {
            assert_eq!(shown.hp, HealthPercent { hp: 60, max_hp: 100 });
            assert!(!shown.crit);
            assert_eq!(shown.effective, Effective::Effective);
        }
        other => panic!("unexpected record {:?}", other),
    }
}

#[test]
fn damage_stops_at_zero_health() {
    let mut target = creature(30, 100);
    target.apply(damage(31));
    assert_eq!(target.hp, 0);
    assert!(target.fainted());
    assert!(!target.available());
}

#[test]
fn damage_of_exactly_the_health_left_faints() {
    let mut target = creature(30, 100);
    target.apply(damage(30));
    assert_eq!(target.hp, 0);
    assert!(target.fainted());
}

#[test]
fn damage_of_the_largest_amount_leaves_zero() {
    let mut target = creature(u16::MAX, u16::MAX);
    target.apply(damage(u16::MAX));
    assert_eq!(target.hp, 0);
}

#[test]
fn healing_stops_at_full_health() {
    let mut target = creature(90, 100);
    let record = target.apply(MoveResult::Heal(20));
    assert_eq!(target.hp, 100);
    match record {
        Some(ClientMoveAction::SetHP(shown)) => {
            assert_eq!(shown, HealthPercent { hp: 100, max_hp: 100 })
        }
        other => panic!("unexpected record {:?}", other),
    }
}

#[test]
fn healing_below_full_health_adds_the_amount() {
    let mut target = creature(50, 100);
    target.apply(MoveResult::Heal(20));
    assert_eq!(target.hp, 70);
}

#[test]
fn negative_healing_takes_health_and_stops_at_zero() {
    let mut target = creature(50, 100);
    target.apply(MoveResult::Heal(-20));
    assert_eq!(target.hp, 30);
    target.apply(MoveResult::Heal(-31));
    assert_eq!(target.hp, 0);
    let mut other = creature(50, 100);
    other.apply(MoveResult::Heal(i32::MIN));
    assert_eq!(other.hp, 0);
    let mut full = creature(50, 100);
    full.apply(MoveResult::Heal(i32::MAX));
    assert_eq!(full.hp, 100);
}

#[test]
fn status_outcome_replaces_the_ailment() {
    let mut target = creature(50, 100);
    let sleep = LiveAilment { ailment: Ailment::Sleep, turns: Some(3) };
    let record = target.apply(MoveResult::Ailment(Some(sleep)));
    assert_eq!(target.ailment, Some(sleep));
    assert!(matches!(record, Some(ClientMoveAction::Ailment(Some(shown))) if shown == sleep));
    let record = target.apply(MoveResult::Ailment(None));
    assert_eq!(target.ailment, None);
    assert!(matches!(record, Some(ClientMoveAction::Ailment(None))));
}

#[test]
fn stat_outcome_moves_the_stage_within_bounds() {
    let mut target = creature(50, 100);
    let record = target.apply(MoveResult::Stat(BattleStatType::Attack, 2));
    assert_eq!(target.stages.attack, 2);
    assert!(matches!(record, Some(ClientMoveAction::AddStat(BattleStatType::Attack, 2))));
    target.apply(MoveResult::Stat(BattleStatType::Attack, 5));
    assert_eq!(target.stages.attack, MAX_STAGE);
    target.apply(MoveResult::Stat(BattleStatType::Attack, -128));
    assert_eq!(target.stages.attack, MIN_STAGE);
    assert!(target.is_valid());
}

#[test]
fn flinch_sets_the_flag_and_shows_nothing() {
    let mut target = creature(50, 100);
    let record = target.apply(MoveResult::Cancel(MoveCancel::Flinch));
    assert!(target.flinch);
    assert!(record.is_none());
}

#[test]
fn miss_and_error_change_nothing() {
    let mut target = creature(50, 100);
    assert!(matches!(target.apply(MoveResult::Miss), Some(ClientMoveAction::Miss)));
    assert!(matches!(target.apply(MoveResult::Error), Some(ClientMoveAction::Error)));
    assert_eq!(target.hp, 50);
    assert_eq!(target.ailment, None);
    assert!(!target.flinch);
}

#[test]
fn stages_know_when_they_can_move() {
    let mut stages = StatStages::new();
    assert!(stages.can_change(BattleStatType::Speed, 1));
    assert!(stages.can_change(BattleStatType::Speed, -1));
    assert!(!stages.can_change(BattleStatType::Speed, 0));
    stages.change_stage(BattleStatType::Speed, 6);
    assert_eq!(stages.get(BattleStatType::Speed), 6);
    assert!(!stages.can_change(BattleStatType::Speed, 1));
    assert!(stages.can_change(BattleStatType::Speed, -1));
    stages.change_stage(BattleStatType::Speed, -12);
    assert_eq!(stages.get(BattleStatType::Speed), -6);
    assert!(!stages.can_change(BattleStatType::Speed, -1));
    assert_eq!(stages.get(BattleStatType::Attack), 0);
}

#[test]
fn stages_out_of_bounds_are_not_valid() {
    let mut stages = StatStages::new();
    assert!(stages.is_valid());
    stages.evasion = 7;
    assert!(!stages.is_valid());
    stages.evasion = -7;
    assert!(!stages.is_valid());
    stages.evasion = -6;
    assert!(stages.is_valid());
}

#[test]
fn drained_health_is_rounded_down() {
    assert_eq!(drain_healing(40, 50), 20);
    assert_eq!(drain_healing(45, 50), 22);
    assert_eq!(drain_healing(45, -50), -23);
    assert_eq!(drain_healing(40, -50), -20);
    assert_eq!(drain_healing(0, 100), 0);
    assert_eq!(drain_healing(1, -1), -1);
    assert_eq!(drain_healing(1, 1), 0);
    assert_eq!(drain_healing(u16::MAX, 127), 83229);
    assert_eq!(drain_healing(u16::MAX, -128), -83885);
}

#[test]
fn staged_statistics_follow_the_stage() {
    assert_eq!(effective_stat(100, 0), 100);
    assert_eq!(effective_stat(100, 1), 150);
    assert_eq!(effective_stat(100, 2), 200);
    assert_eq!(effective_stat(100, 6), 400);
    assert_eq!(effective_stat(100, -1), 66);
    assert_eq!(effective_stat(100, -2), 50);
    assert_eq!(effective_stat(100, -6), 25);
    assert_eq!(effective_stat(u16::MAX, 6), u16::MAX);
    assert_eq!(effective_stat(0, 6), 0);
}

#[test]
fn experience_of_a_defeated_creature() {
    let mut target = creature(0, 100);
    target.base_exp = 64;
    target.level = 7;
    assert_eq!(target.battle_exp_from(BattleType::Trainer), 64);
    assert_eq!(target.battle_exp_from(BattleType::GymLeader), 64);
    assert_eq!(target.battle_exp_from(BattleType::Wild), 43);
    target.base_exp = u16::MAX;
    target.level = u8::MAX;
    assert_eq!(target.battle_exp_from(BattleType::Trainer), 2387346);
}

#[test]
fn experience_raises_the_level() {
    let mut user = creature(50, 100);
    user.level = 5;
    user.experience = 0;
    user.add_exp(30);
    assert_eq!(user.level, 6);
    assert_eq!(user.experience, 25);
}

#[test]
fn experience_below_the_need_keeps_the_level() {
    let mut user = creature(50, 100);
    user.level = 5;
    user.add_exp(25);
    assert_eq!(user.level, 5);
    assert_eq!(user.experience, 125);
}

#[test]
fn experience_can_raise_several_levels() {
    let mut user = creature(50, 100);
    user.level = 2;
    user.add_exp(20);
    // 100 experience: 8 for level 2, 27 for level 3, 64 for level 4
    assert_eq!(user.level, 5);
    assert_eq!(user.experience, 1);
}

#[test]
fn experience_never_leaves_the_highest_level() {
    let mut user = creature(50, 100);
    user.level = u8::MAX;
    user.experience = u32::MAX - 3;
    user.add_exp(u32::MAX);
    assert_eq!(user.level, u8::MAX);
    assert_eq!(user.experience, u32::MAX);
}

#[test]
fn moves_of_the_levels_passed_are_learned() {
    let mut user = creature(50, 100);
    user.level = 5;
    user.learnset = vec![
        LearnableMove(4, move_data(10, 5)),
        LearnableMove(5, move_data(11, 10)),
        LearnableMove(6, move_data(12, 15)),
    ];
    user.add_exp(30);
    assert_eq!(user.level, 6);
    let ids: Vec<u128> = user.moves.iter().map(|m| m.0.id).collect();
    assert_eq!(ids, vec![1, 11]);
    assert_eq!(user.moves[1].1, 10);
    assert!(user.learnable_moves.is_empty());
}

#[test]
fn moves_that_find_no_place_wait_in_the_backlog() {
    let mut user = creature(50, 100);
    user.level = 2;
    user.moves = vec![
        OwnedMove::new(move_data(1, 5)),
        OwnedMove::new(move_data(2, 5)),
        OwnedMove::new(move_data(3, 5)),
    ];
    user.learnset = vec![
        LearnableMove(2, move_data(20, 5)),
        LearnableMove(3, move_data(21, 5)),
        LearnableMove(4, move_data(22, 5)),
        LearnableMove(5, move_data(23, 5)),
    ];
    user.add_exp(20);
    assert_eq!(user.level, 5);
    let ids: Vec<u128> = user.moves.iter().map(|m| m.0.id).collect();
    assert_eq!(ids, vec![1, 2, 3, 20]);
    let waiting: Vec<u128> = user.learnable_moves.iter().map(|m| m.id).collect();
    assert_eq!(waiting, vec![21, 22]);
}

#[test]
fn a_move_of_the_backlog_is_learned_on_request() {
    let mut user = creature(50, 100);
    user.learnable_moves = vec![move_data(30, 7), move_data(31, 8)];
    user.learn(31, None);
    let ids: Vec<u128> = user.moves.iter().map(|m| m.0.id).collect();
    assert_eq!(ids, vec![1, 31]);
    assert_eq!(user.moves[1].1, 8);
    let waiting: Vec<u128> = user.learnable_moves.iter().map(|m| m.id).collect();
    assert_eq!(waiting, vec![30]);
    user.learn(99, None);
    assert_eq!(user.moves.len(), 2);
    assert_eq!(user.learnable_moves.len(), 1);
}

#[test]
fn a_full_move_set_learns_in_the_named_slot() {
    let mut user = creature(50, 100);
    user.moves = vec![
        OwnedMove::new(move_data(1, 5)),
        OwnedMove::new(move_data(2, 5)),
        OwnedMove::new(move_data(3, 5)),
        OwnedMove::new(move_data(4, 5)),
    ];
    user.learnable_moves = vec![move_data(30, 7), move_data(31, 8)];
    user.learn(30, Some(2));
    let ids: Vec<u128> = user.moves.iter().map(|m| m.0.id).collect();
    assert_eq!(ids, vec![1, 2, 30, 4]);
    user.learn(31, None);
    let ids: Vec<u128> = user.moves.iter().map(|m| m.0.id).collect();
    assert_eq!(ids, vec![1, 2, 30, 4]);
    assert!(user.learnable_moves.is_empty());
}

#[test]
fn a_move_without_uses_cannot_be_used() {
    let mut owned = OwnedMove::new(move_data(1, 1));
    assert_eq!(owned.try_use().map(|m| m.id), Some(1));
    assert!(!owned.is_empty());
    owned.decrement();
    assert_eq!(owned.1, 0);
    assert!(owned.is_empty());
    assert!(owned.try_use().is_none());
    owned.decrement();
    assert_eq!(owned.1, 0);
}

#[test]
fn item_actions_heal_and_cure() {
    let mut target = creature(50, 100);
    target.ailment = Some(LiveAilment { ailment: Ailment::Burn, turns: None });
    target.use_item_actions(&vec![ItemAction::HealPokemon(20)]);
    assert_eq!(target.hp, 70);
    target.use_item_actions(&vec![ItemAction::CurePokemon(Some(Ailment::Poison))]);
    assert_eq!(target.ailment.map(|a| a.ailment), Some(Ailment::Burn));
    target.use_item_actions(&vec![ItemAction::CurePokemon(Some(Ailment::Burn))]);
    assert_eq!(target.ailment, None);
    target.ailment = Some(LiveAilment { ailment: Ailment::Sleep, turns: Some(2) });
    target.use_item_actions(&vec![ItemAction::HealPokemon(200), ItemAction::CurePokemon(None)]);
    assert_eq!(target.hp, 100);
    assert_eq!(target.ailment, None);
}

#[test]
fn a_duplicate_holds_what_the_creature_holds() {
    let mut first = creature(42, 100);
    first.learnable_moves = vec![move_data(30, 7)];
    first.learnset = vec![LearnableMove(9, move_data(31, 8))];
    let copy = first.duplicate();
    assert_eq!(copy.hp, 42);
    assert_eq!(copy.max_hp, 100);
    assert_eq!(copy.moves.len(), 1);
    assert_eq!(copy.moves[0].0.id, 1);
    assert_eq!(copy.learnable_moves[0].id, 30);
    assert_eq!(copy.learnset[0].0, 9);
    assert_eq!(copy.growth, GrowthRate::Medium);
}

#[test]
fn what_others_see_of_a_creature() {
    let mut shown = creature(42, 100);
    shown.ailment = Some(LiveAilment { ailment: Ailment::Freeze, turns: Some(1) });
    let remote = shown.as_remote();
    assert_eq!(remote.species, 1);
    assert_eq!(remote.level, 5);
    assert_eq!(remote.hp, HealthPercent { hp: 42, max_hp: 100 });
    assert_eq!(remote.ailment.map(|a| a.ailment), Some(Ailment::Freeze));
    assert!(!remote.hp.is_zero());
}

#[test]
fn an_ailment_starts_with_a_duration_of_its_length() {
    let mut random = rand::rngs::StdRng::seed_from_u64(9);
    for _ in 0..100 {
        let live = AilmentLength::Temporary(3, 5).init(Ailment::Paralysis, &mut random);
        assert_eq!(live.ailment, Ailment::Paralysis);
        assert!(matches!(live.turns, Some(3..=5)));
        let fixed = AilmentLength::Temporary(7, 7).init(Ailment::Sleep, &mut random);
        assert_eq!(fixed, LiveAilment { ailment: Ailment::Sleep, turns: Some(7) });
        let lasting = AilmentLength::Permanent.init(Ailment::Poison, &mut random);
        assert_eq!(lasting, LiveAilment { ailment: Ailment::Poison, turns: None });
    }
    assert!(grants_ailment(true, false));
    assert!(!grants_ailment(true, true));
    assert!(!grants_ailment(false, false));
    assert!(clears_ailment(true, true));
    assert!(!clears_ailment(true, false));
    assert!(!clears_ailment(false, true));
}

#[test]
fn the_facts_of_a_battle() {
    assert!(BattleData::new(BattleType::Wild).is_wild());
    assert!(!BattleData::new(BattleType::Trainer).is_wild());
    assert!(!BattleData::new(BattleType::GymLeader).is_wild());
    assert_eq!(BattleData::new(BattleType::Trainer).type_, BattleType::Trainer);
}
