use firecore_battle::moves::{BattleMove, MoveData, MoveTarget, OwnedMove};
use firecore_battle::party::{ActivePokemon, BattleParty};
use firecore_battle::player::{BattlePlayer, PlayerSettings};
use firecore_battle::pokemon::{BattlePokemon, GrowthRate, Indexed, PokemonIdentifier};
use firecore_battle::queue::{break_ties, goes_before, move_queue, queue_player, MovePriority};
use firecore_battle::stat::StatStages;
use firecore_pokedex::moves::MoveCategory;
use firecore_pokedex::types::PokemonType;
use rand::rngs::StdRng;
use rand::SeedableRng;

fn move_data(id: u128, priority: i8) -> MoveData {
    MoveData {
        id,
        category: MoveCategory::Physical,
        pokemon_type: PokemonType::Normal,
        accuracy: None,
        power: Some(40),
        pp: 10,
        priority,
        target: MoveTarget::Opponent,
        contact: true,
        crit_rate: 0,
    }
}

fn creature(speed: u16, priorities: &[i8]) -> BattlePokemon {
    BattlePokemon {
        species: 1,
        primary: PokemonType::Normal,
        secondary: None,
        level: 5,
        hp: 50,
        max_hp: 50,
        attack: 10,
        defense: 10,
        sp_attack: 10,
        sp_defense: 10,
        speed,
        base_exp: 64,
        growth: GrowthRate::Medium,
        experience: 0,
        ailment: None,
        stages: StatStages::new(),
        flinch: false,
        moves: priorities
            .iter()
            .enumerate()
            .map(|(i, priority)| OwnedMove::new(move_data(i as u128, *priority)))
            .collect(),
        learnset: Vec::new(),
        learnable_moves: Vec::new(),
        known: false,
    }
}

fn player(id: u64, pokemon: Vec<BattlePokemon>, intents: Vec<Option<BattleMove>>) -> BattlePlayer {
    let active = intents
        .into_iter()
        .enumerate()
        .map(|(index, queued_move)| Some(ActivePokemon { index, queued_move }))
        .collect();
    BattlePlayer::new(BattleParty { id, active, pokemon }, PlayerSettings { gains_exp: false })
}

fn users(queue: &[Indexed<BattleMove>]) -> Vec<PokemonIdentifier> {
    queue.iter().map(|entry| entry.0).collect()
}

fn attack(index: usize) -> Option<BattleMove> {
    Some(BattleMove::Move(index, None))
}

#[test]
fn equal_moves_are_ordered_one_way_or_the_other() {
    let first = PokemonIdentifier(1, 0);
    let second = PokemonIdentifier(2, 0);
    let mut first_led = 0;
    let mut second_led = 0;
    for seed in 0..200 {
        let mut players = vec![
            player(1, vec![creature(30, &[0])], vec![attack(0)]),
            player(2, vec![creature(30, &[0])], vec![attack(0)]),
        ];
        let mut random = StdRng::seed_from_u64(seed);
        let queue = move_queue(&mut players, &mut random);
        let order = users(&queue);
        if order == vec![first, second] {
            first_led += 1;
        } else if order == vec![second, first] {
            second_led += 1;
        } else {
            panic!("not an order of the two moves: {:?}", order);
        }
        assert!(queue.iter().all(|entry| entry.1 == BattleMove::Move(0, None)));
    }
    assert!(first_led > 50, "the first led {} times", first_led);
    assert!(second_led > 50, "the second led {} times", second_led);
}

#[test]
fn the_order_is_the_same_for_the_same_seed() {
    let order_of = |seed: u64| {
        let mut players = vec![
            player(1, vec![creature(30, &[0]), creature(30, &[0])], vec![attack(0), attack(0)]),
            player(2, vec![creature(30, &[0]), creature(30, &[0])], vec![attack(0), attack(0)]),
        ];
        let mut random = StdRng::seed_from_u64(seed);
        users(&move_queue(&mut players, &mut random))
    };
    for seed in 0..20 {
        assert_eq!(order_of(seed), order_of(seed));
    }
}

#[test]
fn every_equal_move_is_kept() {
    for seed in 0..100 {
        let mut players = vec![
            player(
                1,
                vec![creature(30, &[0]), creature(30, &[0]), creature(30, &[0])],
                vec![attack(0), attack(0), attack(0)],
            ),
            player(2, vec![creature(30, &[0]), creature(30, &[0])], vec![attack(0), attack(0)]),
        ];
        let mut random = StdRng::seed_from_u64(seed);
        let queue = move_queue(&mut players, &mut random);
        let mut order = users(&queue);
        order.sort_by_key(|id| (id.0, id.1));
        assert_eq!(
            order,
            vec![
                PokemonIdentifier(1, 0),
                PokemonIdentifier(1, 1),
                PokemonIdentifier(1, 2),
                PokemonIdentifier(2, 0),
                PokemonIdentifier(2, 1),
            ]
        );
    }
}

#[test]
fn switches_and_items_go_before_moves() {
    for seed in 0..50 {
        let mut players = vec![
            player(
                2,
                vec![creature(200, &[5]), creature(10, &[0]), creature(10, &[0])],
                vec![attack(0), Some(BattleMove::Switch(2))],
            ),
            player(
                1,
                vec![creature(10, &[0]), creature(90, &[0])],
                vec![Some(BattleMove::UseItem(7, PokemonIdentifier(1, 0))), attack(0)],
            ),
        ];
        let mut random = StdRng::seed_from_u64(seed);
        let queue = move_queue(&mut players, &mut random);
        assert_eq!(
            users(&queue),
            vec![
                PokemonIdentifier(1, 0),
                PokemonIdentifier(2, 1),
                PokemonIdentifier(2, 0),
                PokemonIdentifier(1, 1),
            ]
        );
        assert_eq!(queue[0].1, BattleMove::UseItem(7, PokemonIdentifier(1, 0)));
        assert_eq!(queue[1].1, BattleMove::Switch(2));
        let first_move = queue.iter().position(|entry| entry.1.uses_move()).unwrap();
        assert!(queue[first_move..].iter().all(|entry| entry.1.uses_move()));
    }
}

#[test]
fn moves_go_by_priority_then_by_speed() {
    let mut players = vec![
        player(
            1,
            vec![creature(10, &[0, 1]), creature(50, &[0])],
            vec![attack(1), attack(0)],
        ),
        player(
            2,
            vec![creature(200, &[-1]), creature(40, &[0])],
            vec![attack(0), attack(0)],
        ),
    ];
    let mut random = StdRng::seed_from_u64(1);
    let queue = move_queue(&mut players, &mut random);
    assert_eq!(
        users(&queue),
        vec![
            PokemonIdentifier(1, 0),
            PokemonIdentifier(1, 1),
            PokemonIdentifier(2, 1),
            PokemonIdentifier(2, 0),
        ]
    );
}

#[test]
fn the_speed_that_orders_is_the_staged_speed() {
    let mut slow = creature(100, &[0]);
    slow.stages.speed = -2;
    let mut fast = creature(40, &[0]);
    fast.stages.speed = 2;
    let mut players =
        vec![player(1, vec![slow], vec![attack(0)]), player(2, vec![fast], vec![attack(0)])];
    let mut random = StdRng::seed_from_u64(1);
    let queue = move_queue(&mut players, &mut random);
    assert_eq!(users(&queue), vec![PokemonIdentifier(2, 0), PokemonIdentifier(1, 0)]);
}

#[test]
fn a_move_that_is_not_there_has_no_priority() {
    let mut players = vec![
        player(1, vec![creature(10, &[0])], vec![attack(9)]),
        player(2, vec![creature(5, &[1])], vec![attack(0)]),
        player(3, vec![creature(5, &[-1])], vec![attack(0)]),
    ];
    let mut random = StdRng::seed_from_u64(1);
    let queue = move_queue(&mut players, &mut random);
    assert_eq!(
        users(&queue),
        vec![PokemonIdentifier(2, 0), PokemonIdentifier(1, 0), PokemonIdentifier(3, 0)]
    );
}

#[test]
fn queued_intents_are_taken() {
    let mut players = vec![
        player(1, vec![creature(10, &[0]), creature(10, &[0])], vec![attack(0), None]),
        player(2, vec![creature(10, &[0])], vec![Some(BattleMove::Switch(0))]),
    ];
    let mut random = StdRng::seed_from_u64(1);
    let queue = move_queue(&mut players, &mut random);
    assert_eq!(queue.len(), 2);
    for player in &players {
        for slot in &player.party.active {
            assert_eq!(slot.map(|active| active.queued_move), Some(None));
        }
    }
    assert_eq!(players[0].party.active[1].map(|active| active.index), Some(1));
    let again = move_queue(&mut players, &mut random);
    assert!(again.is_empty());
}

#[test]
fn a_participant_that_left_queues_nothing() {
    let mut players = vec![
        player(1, vec![creature(10, &[0])], vec![attack(0)]),
        player(2, vec![creature(10, &[0])], vec![attack(0)]),
    ];
    players[0].deactivated = true;
    let mut random = StdRng::seed_from_u64(1);
    let queue = move_queue(&mut players, &mut random);
    assert_eq!(users(&queue), vec![PokemonIdentifier(2, 0)]);
    assert_eq!(players[0].party.active[0].unwrap().queued_move, attack(0));
}

#[test]
fn empty_slots_queue_nothing() {
    let mut party = BattleParty {
        id: 4,
        active: vec![None, Some(ActivePokemon { index: 0, queued_move: attack(0) }), None],
        pokemon: vec![creature(10, &[3])],
    };
    let mut keys = Vec::new();
    let mut queue = Vec::new();
    queue_player(&mut keys, &mut queue, &mut party);
    assert_eq!(keys, vec![MovePriority::Second(3, 10, None)]);
    assert_eq!(users(&queue), vec![PokemonIdentifier(4, 1)]);
    assert_eq!(party.active[1], Some(ActivePokemon { index: 0, queued_move: None }));
}

#[test]
fn keys_are_ordered() {
    let first = MovePriority::First(1, 0);
    assert!(goes_before(first, MovePriority::First(1, 1)));
    assert!(goes_before(first, MovePriority::First(2, 0)));
    assert!(!goes_before(MovePriority::First(2, 0), MovePriority::First(1, 5)));
    assert!(!goes_before(first, first));
    assert!(goes_before(MovePriority::First(u64::MAX, usize::MAX), MovePriority::Second(127, u16::MAX, None)));
    assert!(!goes_before(MovePriority::Second(127, u16::MAX, None), first));
    assert!(goes_before(MovePriority::Second(1, 0, None), MovePriority::Second(0, 900, None)));
    assert!(goes_before(MovePriority::Second(0, 900, None), MovePriority::Second(0, 899, None)));
    assert!(goes_before(MovePriority::Second(0, 9, None), MovePriority::Second(0, 9, Some(0))));
    assert!(goes_before(MovePriority::Second(0, 9, Some(3)), MovePriority::Second(0, 9, Some(4))));
    assert!(!goes_before(MovePriority::Second(0, 9, Some(4)), MovePriority::Second(0, 9, Some(4))));
    assert!(!goes_before(MovePriority::Second(0, 9, Some(4)), MovePriority::Second(0, 9, None)));
    assert!(!goes_before(MovePriority::Second(-1, 9, None), MovePriority::Second(0, 9, Some(1))));
}

#[test]
fn only_colliding_keys_get_a_tie_break_value() {
    for seed in 0..50 {
        let mut keys = vec![
            MovePriority::First(1, 0),
            MovePriority::Second(0, 30, None),
            MovePriority::Second(0, 31, None),
            MovePriority::Second(0, 30, None),
            MovePriority::Second(1, 30, None),
            MovePriority::First(1, 1),
            MovePriority::Second(0, 30, None),
        ];
        let mut random = StdRng::seed_from_u64(seed);
        break_ties(&mut keys, &mut random);
        assert_eq!(keys[0], MovePriority::First(1, 0));
        assert_eq!(keys[2], MovePriority::Second(0, 31, None));
        assert_eq!(keys[4], MovePriority::Second(1, 30, None));
        assert_eq!(keys[5], MovePriority::First(1, 1));
        let mut values = Vec::new();
        for at in [1, 3, 6] {
            match keys[at] {
                MovePriority::Second(0, 30, Some(value)) => values.push(value),
                other => panic!("unexpected key {:?}", other),
            }
        }
        values.sort();
        values.dedup();
        assert_eq!(values.len(), 3);
    }
}
