use firecore_battle::ailment::{Ailment, LiveAilment};
use firecore_battle::applier::{
    apply_catch, apply_item_actions, apply_move, apply_outcome, apply_results, apply_switch,
    clear_flinches, take_flinch,
};
use firecore_battle::data::{BattleData, BattleType};
use firecore_battle::host::{Battle, BattleState};
use firecore_battle::moves::{
    BattleMove, ClientMove, ClientMoveAction, DamageResult, MoveCancel, MoveData, MoveResult,
    MoveTarget, OwnedMove,
};
use firecore_battle::party::{ActivePokemon, BattleParty};
use firecore_battle::player::{
    find_player, get_active, players_valid, BattlePlayer, PlayerData, PlayerSettings,
};
use firecore_battle::pokemon::{
    BattlePokemon, GrowthRate, Indexed, ItemAction, PokemonIdentifier, RemotePokemon,
};
use firecore_battle::scripting::{ScriptDamage, ScriptMoveResult, ScriptPokemon};
use firecore_battle::stat::{BattleStatType, StatStages};
use firecore_battle::view::PokemonView;
use firecore_pokedex::moves::MoveCategory;
use firecore_pokedex::types::{Effective, PokemonType};

fn move_data(id: u128) -> MoveData {
    MoveData {
        id,
        category: MoveCategory::Special,
        pokemon_type: PokemonType::Water,
        accuracy: Some(90),
        power: None,
        pp: 3,
        priority: 0,
        target: MoveTarget::Opponent,
        contact: false,
        crit_rate: 1,
    }
}

fn creature(hp: u16) -> BattlePokemon {
    BattlePokemon {
        species: 25,
        primary: PokemonType::Electric,
        secondary: Some(PokemonType::Flying),
        level: 10,
        hp,
        max_hp: 100,
        attack: 10,
        defense: 10,
        sp_attack: 10,
        sp_defense: 10,
        speed: 10,
        base_exp: 70,
        growth: GrowthRate::Medium,
        experience: 0,
        ailment: None,
        stages: StatStages::new(),
        flinch: false,
        moves: vec![OwnedMove::new(move_data(1))],
        learnset: Vec::new(),
        learnable_moves: Vec::new(),
        known: false,
    }
}

fn held(index: usize) -> Option<ActivePokemon> {
    Some(ActivePokemon { index, queued_move: None })
}

fn party(id: u64, active: Vec<Option<ActivePokemon>>, hps: &[u16]) -> BattleParty {
    BattleParty { id, active, pokemon: hps.iter().map(|hp| creature(*hp)).collect() }
}

fn player(id: u64, active: Vec<Option<ActivePokemon>>, hps: &[u16], gains_exp: bool) -> BattlePlayer {
    BattlePlayer::new(party(id, active, hps), PlayerSettings { gains_exp })
}

fn damage(amount: u16) -> MoveResult {
    MoveResult::Damage(DamageResult { damage: amount, effective: Effective::NotEffective, crit: false })
}

const RED: PokemonIdentifier = PokemonIdentifier(1, 0);
const BLUE: PokemonIdentifier = PokemonIdentifier(2, 0);

#[test]
fn a_party_is_formed_from_the_first_available_creatures() {
    let bench: Vec<BattlePokemon> = [0u16, 50, 0, 0, 70].iter().map(|hp| creature(*hp)).collect();
    let formed = BattleParty::new(9, 3, bench);
    assert_eq!(formed.id, 9);
    assert_eq!(formed.active, vec![held(1), held(4), None]);
    assert_eq!(formed.pokemon.len(), 5);
    assert!(formed.is_valid());
    let narrow = BattleParty::new(9, 1, vec![creature(5), creature(6)]);
    assert_eq!(narrow.active, vec![held(0)]);
    let empty = BattleParty::new(9, 2, Vec::new());
    assert_eq!(empty.active, vec![None, None]);
    assert!(empty.all_fainted());
    let none = BattleParty::new(9, 0, vec![creature(5)]);
    assert!(none.active.is_empty());
}

#[test]
fn a_participant_enters_with_its_active_creatures_shown() {
    let data = PlayerData {
        id: 4,
        party: vec![creature(0), creature(10), creature(20), creature(30)],
        active: 2,
        settings: PlayerSettings { gains_exp: true },
    };
    let entered = data.init();
    assert_eq!(entered.id(), 4);
    assert_eq!(entered.party.active, vec![held(1), held(2)]);
    let known: Vec<bool> = entered.party.pokemon.iter().map(|c| c.known).collect();
    assert_eq!(known, vec![false, true, true, false]);
    assert!(entered.settings.gains_exp);
    assert!(!entered.waiting && !entered.deactivated && entered.inbox.is_empty());
}

#[test]
fn a_battle_is_made_from_participant_data() {
    let battle = Battle::new(
        BattleData::new(BattleType::Wild),
        vec![
            PlayerData {
                id: 8,
                party: vec![creature(10)],
                active: 1,
                settings: PlayerSettings { gains_exp: true },
            },
            PlayerData {
                id: 3,
                party: vec![creature(0), creature(10)],
                active: 1,
                settings: PlayerSettings { gains_exp: false },
            },
        ],
    );
    assert_eq!(battle.state(), BattleState::Start);
    assert!(battle.data().is_wild());
    assert!(battle.outbox().is_empty());
    let ids: Vec<u64> = battle.players().iter().map(|p| p.id()).collect();
    assert_eq!(ids, vec![8, 3]);
    assert_eq!(battle.players()[1].party.active, vec![held(1)]);
    assert!(players_valid(battle.players()));
}

#[test]
fn the_party_invariant_is_checked() {
    assert!(party(1, vec![held(0), held(1), None], &[10, 20]).is_valid());
    assert!(!party(1, vec![held(0), held(0)], &[10, 20]).is_valid());
    assert!(!party(1, vec![held(2)], &[10, 20]).is_valid());
    assert!(!party(1, vec![held(1)], &[10, 0]).is_valid());
    let mut over = party(1, vec![held(0)], &[10, 10]);
    over.pokemon[1].hp = 101;
    assert!(!over.is_valid());
    let mut staged = party(1, vec![held(0)], &[10, 10]);
    staged.pokemon[0].stages.speed = 7;
    assert!(!staged.is_valid());
    assert!(players_valid(&vec![player(1, vec![held(0)], &[10], false), player(2, vec![], &[], false)]));
    assert!(!players_valid(&vec![player(1, vec![held(0)], &[10], false), player(1, vec![], &[], false)]));
    assert!(!players_valid(&vec![player(1, vec![held(0)], &[0], false)]));
}

#[test]
fn what_a_party_says_of_itself() {
    let mut lineup = party(1, vec![held(1), None], &[0, 20, 30]);
    assert_eq!(lineup.index(0), Some(1));
    assert_eq!(lineup.index(1), None);
    assert_eq!(lineup.index(2), None);
    assert_eq!(lineup.active(0).map(|c| c.hp), Some(20));
    assert!(lineup.active(1).is_none());
    assert!(lineup.active_contains(1));
    assert!(!lineup.active_contains(2));
    assert!(lineup.may_enter(2));
    assert!(!lineup.may_enter(1));
    assert!(!lineup.may_enter(0));
    assert!(!lineup.may_enter(3));
    assert!(!lineup.all_fainted());
    assert!(lineup.any_inactive());
    assert!(lineup.needs_replace());
    assert!(!lineup.ready_to_move());
    assert!(lineup.queue(0, BattleMove::Switch(2)));
    assert!(!lineup.queue(1, BattleMove::Switch(2)));
    assert!(!lineup.queue(2, BattleMove::Switch(2)));
    assert!(lineup.ready_to_move());
    assert_eq!(lineup.take_queued(0), Some(BattleMove::Switch(2)));
    assert_eq!(lineup.take_queued(0), None);
    assert_eq!(lineup.take_queued(1), None);
    assert_eq!(lineup.take_queued(5), None);
    lineup.replace(1, 2);
    assert_eq!(lineup.active, vec![held(1), held(2)]);
    assert!(!lineup.needs_replace());
    assert!(!lineup.any_inactive());
    lineup.remove_active(0);
    lineup.remove_active(4);
    assert_eq!(lineup.active, vec![None, held(2)]);
    assert!(lineup.needs_replace());
    let gone = party(1, vec![None], &[0, 0]);
    assert!(gone.all_fainted());
    assert!(!gone.needs_replace());
    assert!(gone.ready_to_move());
}

#[test]
fn creatures_are_shown_once() {
    let mut lineup = party(1, vec![held(1), None], &[10, 20, 30]);
    let shown = lineup.know(2).expect("the creature was not shown before");
    assert_eq!(shown.hp.hp, 30);
    assert_eq!(shown.species, 25);
    assert!(lineup.know(2).is_none());
    lineup.reveal_active();
    let known: Vec<bool> = lineup.pokemon.iter().map(|c| c.known).collect();
    assert_eq!(known, vec![false, true, true]);
    let remote = lineup.as_remote();
    assert_eq!(remote.id, 1);
    assert_eq!(remote.active, vec![Some(1), None]);
    assert!(remote.pokemon[0].is_none());
    assert_eq!(remote.pokemon[1].map(|c| c.hp.hp), Some(20));
}

#[test]
fn a_hit_to_zero_health_faints_and_rewards_the_opponent() {
    let mut players =
        vec![player(1, vec![held(0)], &[80], true), player(2, vec![held(0), None], &[30, 9], false)];
    let records = apply_outcome(&mut players, BattleType::Trainer, RED, BLUE, damage(30));
    let target = &players[1].party;
    assert_eq!(target.pokemon[0].hp, 0);
    assert!(target.pokemon[0].fainted());
    assert_eq!(target.active, vec![None, None]);
    assert_eq!(records.len(), 2);
    assert_eq!(records[0].0, BLUE);
    match records[0].1 {
        ClientMoveAction::SetDamage(shown) => {
            assert!(shown.hp.is_zero());
            assert_eq!(shown.effective, Effective::NotEffective);
        }
        other => panic!("unexpected record {:?}", other),
    }
    assert_eq!(records[1].0, RED);
    assert!(matches!(records[1].1, ClientMoveAction::SetExp(100, 10)));
    let user = &players[0].party.pokemon[0];
    assert_eq!(user.experience, 500);
    assert_eq!(user.level, 10);
    let again = apply_outcome(&mut players, BattleType::Trainer, RED, BLUE, damage(30));
    assert!(again.is_empty());
    assert_eq!(players[0].party.pokemon[0].experience, 500);
}

#[test]
fn experience_is_gained_only_where_it_is_enabled() {
    let mut players =
        vec![player(1, vec![held(0)], &[80], false), player(2, vec![held(0)], &[30], true)];
    let records = apply_outcome(&mut players, BattleType::Trainer, RED, BLUE, damage(200));
    assert_eq!(records.len(), 1);
    assert_eq!(players[0].party.pokemon[0].experience, 0);
    assert_eq!(players[1].party.active, vec![None]);
}

#[test]
fn no_experience_for_a_creature_of_the_own_party() {
    let mut players = vec![player(1, vec![held(0), held(1)], &[80, 10], true)];
    let ally = PokemonIdentifier(1, 1);
    let records = apply_outcome(&mut players, BattleType::Wild, RED, ally, damage(10));
    assert_eq!(records.len(), 1);
    assert_eq!(players[0].party.active, vec![held(0), None]);
    assert_eq!(players[0].party.pokemon[0].experience, 0);
    let records = apply_outcome(&mut players, BattleType::Wild, RED, RED, MoveResult::Heal(-80));
    assert_eq!(records.len(), 1);
    assert_eq!(players[0].party.active, vec![None, None]);
}

#[test]
fn a_wild_creature_yields_a_third_less() {
    let mut players =
        vec![player(1, vec![held(0)], &[80], true), player(2, vec![held(0)], &[30], false)];
    let records = apply_outcome(&mut players, BattleType::Wild, RED, BLUE, damage(30));
    assert!(matches!(records[1].1, ClientMoveAction::SetExp(67, 10)));
    assert_eq!(players[0].party.pokemon[0].experience, 335);
}

#[test]
fn a_miss_is_recorded_and_nothing_faints() {
    let mut players =
        vec![player(1, vec![held(0)], &[80], true), player(2, vec![held(0)], &[30], false)];
    let records = apply_outcome(&mut players, BattleType::Trainer, RED, RED, MoveResult::Miss);
    assert_eq!(records.len(), 1);
    assert_eq!(records[0].0, RED);
    assert!(matches!(records[0].1, ClientMoveAction::Miss));
    assert_eq!(players[0].party.active, vec![held(0)]);
    let records = apply_outcome(&mut players, BattleType::Trainer, RED, BLUE, MoveResult::Error);
    assert!(matches!(records[0].1, ClientMoveAction::Error));
    assert_eq!(players[1].party.pokemon[0].hp, 30);
}

#[test]
fn outcomes_are_applied_in_order() {
    let mut players =
        vec![player(1, vec![held(0)], &[80], true), player(2, vec![held(0)], &[30], false)];
    let burn = LiveAilment { ailment: Ailment::Burn, turns: None };
    let output = vec![
        Indexed(BLUE, MoveResult::Stat(BattleStatType::Defense, -2)),
        Indexed(BLUE, MoveResult::Ailment(Some(burn))),
        Indexed(BLUE, MoveResult::Cancel(MoveCancel::Flinch)),
        Indexed(BLUE, damage(29)),
        Indexed(RED, MoveResult::Heal(30)),
        Indexed(BLUE, damage(1)),
        Indexed(BLUE, damage(1)),
        Indexed(PokemonIdentifier(3, 0), damage(1)),
    ];
    let records = apply_results(&mut players, BattleType::Trainer, RED, &output);
    assert_eq!(records.len(), 6);
    assert!(matches!(records[0].1, ClientMoveAction::AddStat(BattleStatType::Defense, -2)));
    assert!(matches!(records[1].1, ClientMoveAction::Ailment(Some(a)) if a == burn));
    assert!(matches!(records[2].1, ClientMoveAction::SetDamage(d) if d.hp.hp == 1));
    assert!(matches!(records[3].1, ClientMoveAction::SetHP(p) if p.hp == 100));
    assert!(matches!(records[4].1, ClientMoveAction::SetDamage(d) if d.hp.hp == 0));
    assert!(matches!(records[5].1, ClientMoveAction::SetExp(100, 10)));
    let target = &players[1].party.pokemon[0];
    assert_eq!(target.stages.defense, -2);
    assert_eq!(target.ailment, Some(burn));
    assert!(target.flinch);
    assert_eq!(target.hp, 0);
    assert_eq!(players[0].party.pokemon[0].hp, 100);
}

#[test]
fn a_move_costs_one_use() {
    let mut players =
        vec![player(1, vec![held(0)], &[80], true), player(2, vec![held(0)], &[30], false)];
    let entry = apply_move(&mut players, BattleType::Trainer, RED, 0, 1, &Vec::new());
    assert_eq!(players[0].party.pokemon[0].moves[0].1, 2);
    assert!(matches!(entry.1, ClientMove::Move(1, 1, actions) if actions.is_empty()));
    apply_move(&mut players, BattleType::Trainer, RED, 4, 1, &Vec::new());
    assert_eq!(players[0].party.pokemon[0].moves[0].1, 2);
    let recoil = vec![Indexed(RED, MoveResult::Heal(-100))];
    apply_move(&mut players, BattleType::Trainer, RED, 0, 1, &recoil);
    assert_eq!(players[0].party.pokemon[0].moves[0].1, 1);
    assert_eq!(players[0].party.active, vec![None]);
    apply_move(&mut players, BattleType::Trainer, RED, 0, 1, &Vec::new());
    assert_eq!(players[0].party.pokemon[0].moves[0].1, 1);
}

#[test]
fn flinches_are_taken_and_cleared() {
    let mut players =
        vec![player(1, vec![held(0)], &[80, 70], true), player(2, vec![held(0)], &[30], false)];
    players[0].party.pokemon[0].flinch = true;
    players[0].party.pokemon[1].flinch = true;
    players[1].party.pokemon[0].flinch = true;
    assert!(take_flinch(&mut players, RED));
    assert!(!take_flinch(&mut players, RED));
    assert!(!take_flinch(&mut players, PokemonIdentifier(1, 1)));
    assert!(!take_flinch(&mut players, PokemonIdentifier(5, 0)));
    assert!(players[0].party.pokemon[1].flinch);
    clear_flinches(&mut players);
    assert!(players.iter().all(|p| p.party.pokemon.iter().all(|c| !c.flinch)));
}

#[test]
fn switches_and_items_and_catches_on_participants() {
    let mut players = vec![
        player(1, vec![held(0), None], &[80, 70], true),
        player(2, vec![held(0)], &[30], false),
    ];
    let (done, shown) = apply_switch(&mut players, PokemonIdentifier(1, 1), 1);
    assert!(done);
    assert_eq!(shown.map(|c| c.hp.hp), Some(70));
    let (done, shown) = apply_switch(&mut players, PokemonIdentifier(1, 1), 1);
    assert!(!done && shown.is_none());
    assert!(apply_item_actions(&mut players, RED, 1, &vec![ItemAction::HealPokemon(5)]));
    assert_eq!(players[0].party.pokemon[1].hp, 75);
    assert!(!apply_item_actions(&mut players, BLUE, 1, &vec![ItemAction::HealPokemon(5)]));
    assert!(apply_catch(&mut players, BattleType::Trainer, RED, BLUE).is_none());
    assert!(apply_catch(&mut players, BattleType::Wild, RED, RED).is_none());
    assert!(apply_catch(&mut players, BattleType::Wild, PokemonIdentifier(7, 0), BLUE).is_none());
    let captive = apply_catch(&mut players, BattleType::Wild, RED, BLUE).expect("it is caught");
    assert_eq!(captive.hp, 30);
    assert_eq!(players[0].party.pokemon.len(), 3);
    assert!(players[1].party.pokemon.is_empty());
    assert_eq!(players[1].party.active, vec![None]);
    assert!(players_valid(&players));
}

#[test]
fn participants_are_found_by_their_identifier() {
    let players = vec![
        player(5, vec![held(0)], &[80], true),
        player(2, vec![None, held(0)], &[30], false),
    ];
    assert_eq!(find_player(&players, 5), Some(0));
    assert_eq!(find_player(&players, 2), Some(1));
    assert_eq!(find_player(&players, 0), None);
    assert_eq!(get_active(&players, PokemonIdentifier(2, 1)).map(|c| c.hp), Some(30));
    assert!(get_active(&players, PokemonIdentifier(2, 0)).is_none());
    assert!(get_active(&players, PokemonIdentifier(2, 2)).is_none());
    assert!(get_active(&players, PokemonIdentifier(3, 0)).is_none());
    assert_eq!(PokemonIdentifier(2, 1).team(), 2);
    assert_eq!(PokemonIdentifier(2, 1).index(), 1);
}

#[test]
fn the_inbox_is_read_oldest_first() {
    let mut reader = player(5, vec![held(0)], &[80], true);
    assert!(reader.receive().is_none());
    reader.deliver(firecore_battle::message::ClientMessage::Forfeit);
    reader.deliver(firecore_battle::message::ClientMessage::FinishedTurnQueue);
    assert_eq!(reader.receive(), Some(firecore_battle::message::ClientMessage::Forfeit));
    assert_eq!(reader.receive(), Some(firecore_battle::message::ClientMessage::FinishedTurnQueue));
    assert!(reader.receive().is_none());
}

#[test]
fn what_a_script_emits() {
    let at = ScriptPokemon(BLUE);
    let emitted = ScriptMoveResult::new(at, MoveResult::Error);
    assert_eq!(emitted.0 .0, BLUE);
    assert!(matches!(emitted.0 .1, MoveResult::Error));
    let hit = DamageResult { damage: 12, effective: Effective::SuperEffective, crit: true };
    let emitted = ScriptMoveResult::damage(at, ScriptDamage(hit));
    assert!(matches!(emitted.0 .1, MoveResult::Damage(d) if d.damage == 12 && d.crit));
    assert!(matches!(ScriptMoveResult::heal(at, -7).0 .1, MoveResult::Heal(-7)));
    assert!(matches!(ScriptMoveResult::heal(at, (1i64 << 32) + 5).0 .1, MoveResult::Heal(5)));
    assert!(matches!(ScriptMoveResult::miss(at).0 .1, MoveResult::Miss));
    assert_eq!(ScriptMoveResult::miss(at).0 .0, BLUE);
}

#[test]
fn creatures_are_viewed_alike() {
    let own = creature(0);
    assert_eq!(PokemonView::pokemon(&own), 25);
    assert_eq!(PokemonView::level(&own), 10);
    assert!(PokemonView::fainted(&own));
    assert!(!PokemonView::available(&own));
    let shown: RemotePokemon = creature(40).as_remote();
    assert!(!shown.fainted());
    assert!(shown.available());
    assert_eq!(shown.pokemon(), 25);
    let hidden: Option<RemotePokemon> = None;
    assert_eq!(hidden.pokemon(), 0);
    assert_eq!(hidden.level(), 0);
    assert!(!hidden.fainted());
    assert!(!hidden.available());
    assert!(Some(shown).available());
    assert_eq!(Some(shown).level(), 10);
}

#[test]
fn a_creature_that_is_taken_leaves_the_bench() {
    let mut lineup = party(1, vec![held(2), held(0), None, held(1)], &[10, 20, 30]);
    lineup.active[0] = Some(ActivePokemon { index: 2, queued_move: Some(BattleMove::Switch(1)) });
    assert!(lineup.capture(2).is_none());
    assert!(lineup.capture(9).is_none());
    let taken = lineup.capture(1).expect("the slot holds a creature");
    assert_eq!(taken.hp, 10);
    let left: Vec<u16> = lineup.pokemon.iter().map(|c| c.hp).collect();
    assert_eq!(left, vec![20, 30]);
    assert_eq!(
        lineup.active,
        vec![
            Some(ActivePokemon { index: 1, queued_move: Some(BattleMove::Switch(1)) }),
            None,
            None,
            held(0),
        ]
    );
    assert!(lineup.is_valid());
    assert_eq!(lineup.active(0).map(|c| c.hp), Some(30));
    assert_eq!(lineup.active(3).map(|c| c.hp), Some(20));
}
