//! The turn scheduler: orders the intents queued for one round.

use crate::moves::{BaseStat, BattleMove, Priority};
use crate::party::{ActivePokemon, BattleParty};
use crate::player::{active_at, lemma_seat_unique, players_wf, BattlePlayer};
use crate::pokemon::{BattlePokemon, Indexed, PlayerId, PokemonIdentifier};
use crate::random::roll_tiebreak;
use rand::rngs::StdRng;
use vstd::prelude::*;

verus! {

/// How often a fresh tie-break value is drawn for one intent before the
/// last value drawn is kept.
pub const TIEBREAK_RETRIES: usize = 16;

/// The key that orders an intent within a round.
#[derive(Clone, Copy, Debug, PartialEq, Eq, Structural, Hash)]
pub enum MovePriority {
    /// An intent that is no move, with the participant and the active slot
    /// it was queued for. It goes before every move.
    First(PlayerId, usize),
    /// A move, with its priority, the speed of its user and a value that
    /// breaks ties. The higher priority goes first, then the higher speed,
    /// then the lower tie-break value, none going before any.
    Second(Priority, BaseStat, Option<u16>),
}

/// Whether the tie-break value `a` goes before `b`.
pub open spec fn tie_precedes(a: Option<u16>, b: Option<u16>) -> bool {
    match (a, b) {
        (None, Some(_)) => true,
        (Some(x), Some(y)) => x < y,
        _ => false,
    }
}

/// Whether the key `a` goes before the key `b`.
pub open spec fn precedes(a: MovePriority, b: MovePriority) -> bool {
    match (a, b) {
        (MovePriority::First(id_a, slot_a), MovePriority::First(id_b, slot_b)) => id_a < id_b
            || (id_a == id_b && slot_a < slot_b),
        (MovePriority::First(..), MovePriority::Second(..)) => true,
        (MovePriority::Second(..), MovePriority::First(..)) => false,
        (
            MovePriority::Second(priority_a, speed_a, tie_a),
            MovePriority::Second(priority_b, speed_b, tie_b),
        ) => priority_a > priority_b || (priority_a == priority_b && (speed_a > speed_b || (speed_a
            == speed_b && tie_precedes(tie_a, tie_b)))),
    }
}

/// The key without its tie-break value.
pub open spec fn base_of(key: MovePriority) -> MovePriority {
    match key {
        MovePriority::First(..) => key,
        MovePriority::Second(priority, speed, _) => MovePriority::Second(priority, speed, None),
    }
}

/// Whether keys are in order: none goes before one that stands before it.
pub open spec fn in_order(keys: Seq<MovePriority>) -> bool {
    forall|i: int, j: int|
        0 <= i < j < keys.len() ==> !precedes(#[trigger] keys[j], #[trigger] keys[i])
}

/// Whether the key at `i` collides: it is the key of a move, and another
/// key names the same priority and speed.
pub open spec fn collides(keys: Seq<MovePriority>, i: int) -> bool {
    keys[i] is Second && exists|j: int|
        0 <= j < keys.len() && j != i && base_of(#[trigger] keys[j]) == base_of(keys[i])
}

/// The priority of the move in slot `index` of a creature's move set; zero
/// where there is none.
pub open spec fn move_priority(creature: BattlePokemon, index: int) -> Priority {
    if 0 <= index < creature.moves@.len() {
        creature.moves@[index].0.priority
    } else {
        0
    }
}

/// The key of an intent before ties are broken: for a move, its priority
/// and the speed of the creature that `pokemon` addresses; for another
/// intent, the participant and the slot.
pub open spec fn rank_key(
    players: Seq<BattlePlayer>,
    pokemon: PokemonIdentifier,
    action: BattleMove,
) -> MovePriority {
    match action {
        BattleMove::Move(index, _) => match active_at(players, pokemon) {
            Some(creature) => MovePriority::Second(
                move_priority(creature, index as int),
                creature.effective_speed(),
                None,
            ),
            None => MovePriority::Second(0, 0, None),
        },
        _ => MovePriority::First(pokemon.0, pokemon.1),
    }
}

/// The intent queued for an active slot of a party, if the slot holds a
/// creature and an intent is queued for it.
pub open spec fn pending(party: BattleParty, slot: int) -> Option<BattleMove> {
    if 0 <= slot < party.active@.len() {
        match party.active@[slot] {
            Some(active) => active.queued_move,
            None => None,
        }
    } else {
        None
    }
}

/// The intents queued for the slots of a party below `upto`, in the order
/// of the slots.
pub open spec fn party_intents(party: BattleParty, upto: int) -> Seq<Indexed<BattleMove>>
    decreases upto,
{
    if upto <= 0 {
        Seq::empty()
    } else {
        let rest = party_intents(party, upto - 1);
        match pending(party, upto - 1) {
            Some(action) => rest.push(
                Indexed(PokemonIdentifier(party.id, (upto - 1) as usize), action),
            ),
            None => rest,
        }
    }
}

/// The intents queued by the participants below `upto` that take part, in
/// the order of the participants and, for each, of its slots.
pub open spec fn pending_intents(players: Seq<BattlePlayer>, upto: int) -> Seq<Indexed<BattleMove>>
    decreases upto,
{
    if upto <= 0 {
        Seq::empty()
    } else {
        let rest = pending_intents(players, upto - 1);
        if players[upto - 1].deactivated {
            rest
        } else {
            rest + party_intents(
                players[upto - 1].party,
                players[upto - 1].party.active@.len() as int,
            )
        }
    }
}

/// The party with every queued intent taken.
pub open spec fn cleared(before: BattleParty, after: BattleParty) -> bool {
    &&& after.id == before.id
    &&& after.pokemon == before.pokemon
    &&& after.active@.len() == before.active@.len()
    &&& forall|slot: int|
        0 <= slot < before.active@.len() ==> #[trigger] after.active@[slot] == (
        match before.active@[slot] {
            Some(active) => Some(ActivePokemon { index: active.index, queued_move: None }),
            None => None,
        })
}

/// Whether the key `a` goes before the key `b`.
pub fn goes_before(a: MovePriority, b: MovePriority) -> (before: bool)
    ensures
        before == precedes(a, b),
{
    match a {
        MovePriority::First(id_a, slot_a) => match b {
            MovePriority::First(id_b, slot_b) => id_a < id_b || (id_a == id_b && slot_a < slot_b),
            MovePriority::Second(..) => true,
        },
        MovePriority::Second(priority_a, speed_a, tie_a) => match b {
            MovePriority::First(..) => false,
            MovePriority::Second(priority_b, speed_b, tie_b) => {
                let tie: bool = match tie_a {
                    None => tie_b.is_some(),
                    Some(x) => match tie_b {
                        Some(y) => x < y,
                        None => false,
                    },
                };
                priority_a > priority_b || (priority_a == priority_b && (speed_a > speed_b || (
                speed_a == speed_b && tie)))
            },
        },
    }
}

/// Whether two keys are the same but for their tie-break values.
fn same_base(a: MovePriority, b: MovePriority) -> (same: bool)
    ensures
        same == (base_of(a) == base_of(b)),
{
    match a {
        MovePriority::First(id_a, slot_a) => match b {
            MovePriority::First(id_b, slot_b) => id_a == id_b && slot_a == slot_b,
            MovePriority::Second(..) => false,
        },
        MovePriority::Second(priority_a, speed_a, _) => match b {
            MovePriority::First(..) => false,
            MovePriority::Second(priority_b, speed_b, _) => priority_a == priority_b && speed_a
                == speed_b,
        },
    }
}

/// The key of an intent of the creature in slot `slot` of `party`, before
/// ties are broken.
fn base_key(party: &BattleParty, slot: usize, creature: &BattlePokemon, action: BattleMove) -> (key:
    MovePriority)
    requires
        creature.wf(),
    ensures
        key == (match action {
            BattleMove::Move(index, _) => MovePriority::Second(
                move_priority(*creature, index as int),
                creature.effective_speed(),
                None,
            ),
            _ => MovePriority::First(party.id, slot),
        }),
{
    match action {
        BattleMove::Move(index, _) => {
            let priority: Priority = if index < creature.moves.len() {
                creature.moves[index].0.priority
            } else {
                0
            };
            MovePriority::Second(priority, creature.speed(), None)
        },
        _ => MovePriority::First(party.id, slot),
    }
}

/// Takes the intents queued for the slots of a party, in the order of the
/// slots, and adds each with its key to the queue.
pub fn queue_player(
    keys: &mut Vec<MovePriority>,
    queue: &mut Vec<Indexed<BattleMove>>,
    party: &mut BattleParty,
)
    requires
        old(party).wf(),
        old(keys)@.len() == old(queue)@.len(),
    ensures
        final(party).wf(),
        cleared(*old(party), *final(party)),
        final(queue)@ == old(queue)@ + party_intents(
            *old(party),
            old(party).active@.len() as int,
        ),
        final(keys)@.len() == final(queue)@.len(),
        forall|i: int|
            0 <= i < old(keys)@.len() ==> #[trigger] final(keys)@[i] == old(keys)@[i],
        forall|i: int|
            old(keys)@.len() <= i < final(keys)@.len() ==> #[trigger] final(keys)@[i] == (
            match final(queue)@[i].1 {
                BattleMove::Move(index, _) => ({
                    let creature = old(party).pokemon@[old(party).index_at(
                        final(queue)@[i].0.1 as int,
                    )->0 as int];
                    MovePriority::Second(
                        move_priority(creature, index as int),
                        creature.effective_speed(),
                        None,
                    )
                }),
                _ => MovePriority::First(final(queue)@[i].0.0, final(queue)@[i].0.1),
            }) && final(queue)@[i].0.0 == old(party).id && old(party).index_at(
                final(queue)@[i].0.1 as int,
            ) is Some,
{
    let ghost start = keys@.len();
    let mut slot: usize = 0;
    while slot < party.active.len()
        invariant
            slot <= party.active.len(),
            party.wf(),
            start == old(keys)@.len(),
            party.id == old(party).id,
            party.pokemon == old(party).pokemon,
            party.active@.len() == old(party).active@.len(),
            forall|s: int|
                0 <= s < slot ==> #[trigger] party.active@[s] == (match old(party).active@[s] {
                    Some(active) => Some(ActivePokemon { index: active.index, queued_move: None }),
                    None => None,
                }),
            forall|s: int|
                slot <= s < party.active@.len() ==> #[trigger] party.active@[s]
                    == old(party).active@[s],
            queue@ == old(queue)@ + party_intents(*old(party), slot as int),
            keys@.len() == queue@.len(),
            start == old(queue)@.len(),
            forall|i: int| 0 <= i < start ==> #[trigger] keys@[i] == old(keys)@[i],
            forall|i: int|
                start <= i < keys@.len() ==> #[trigger] keys@[i] == (match queue@[i].1 {
                    BattleMove::Move(index, _) => ({
                        let creature = old(party).pokemon@[old(party).index_at(
                            queue@[i].0.1 as int,
                        )->0 as int];
                        MovePriority::Second(
                            move_priority(creature, index as int),
                            creature.effective_speed(),
                            None,
                        )
                    }),
                    _ => MovePriority::First(queue@[i].0.0, queue@[i].0.1),
                }) && queue@[i].0.0 == old(party).id && old(party).index_at(queue@[i].0.1 as int)
                    is Some,
        decreases party.active.len() - slot,
    {
        let taken = party.take_queued(slot);
        match taken {
            Some(action) => {
                let index: usize = match party.index(slot) {
                    Some(index) => index,
                    None => 0,
                };
                let key = base_key(party, slot, &party.pokemon[index], action);
                keys.push(key);
                queue.push(Indexed(PokemonIdentifier(party.id, slot), action));
            },
            None => {},
        }
        slot += 1;
    }
}

/// The key of a move with the given priority and speed and the tie-break
/// value `value`.
pub open spec fn tied(priority: Priority, speed: BaseStat, value: u16) -> MovePriority {
    MovePriority::Second(priority, speed, Some(value))
}

/// Whether no two keys are equal.
pub open spec fn distinct_keys(keys: Seq<MovePriority>) -> bool {
    forall|i: int, j: int| 0 <= i < j < keys.len() ==> #[trigger] keys[i] != #[trigger] keys[j]
}

/// Whether no two keys of intents that are no moves are equal.
pub open spec fn distinct_firsts(keys: Seq<MovePriority>) -> bool {
    forall|i: int, j: int|
        0 <= i < j < keys.len() && (#[trigger] keys[i]) is First ==> keys[i] != #[trigger] keys[j]
}

/// A queue that holds a key for every tie-break value of one priority and
/// speed holds more keys than there are tie-break values below the
/// largest.
proof fn lemma_all_values_taken(keys: Seq<MovePriority>, priority: Priority, speed: BaseStat)
    requires
        forall|value: u16| keys.contains(#[trigger] tied(priority, speed, value)),
    ensures
        keys.len() > u16::MAX,
{
    let values = vstd::set_lib::set_int_range(0, 65536);
    vstd::set_lib::lemma_int_range(0, 65536);
    let key_of = |value: int| tied(priority, speed, value as u16);
    let taken = values.map(key_of);
    vstd::set_lib::lemma_map_size(values, taken, key_of);
    keys.lemma_cardinality_of_set();
    vstd::set_lib::lemma_len_subset(taken, keys.to_set());
}

/// The lowest tie-break value that no key of the given priority and speed
/// holds; none where every value is held.
fn free_tiebreak(keys: &Vec<MovePriority>, priority: Priority, speed: BaseStat) -> (value: Option<
    u16,
>)
    ensures
        match value {
            Some(value) => !keys@.contains(tied(priority, speed, value)),
            None => keys@.len() > u16::MAX,
        },
{
    let mut value: u16 = 0;
    loop
        invariant
            forall|lower: u16| lower < value
                ==> keys@.contains(#[trigger] tied(priority, speed, lower)),
        decreases u16::MAX - value,
    {
        if !holds_key(keys, MovePriority::Second(priority, speed, Some(value))) {
            return Some(value);
        }
        if value == u16::MAX {
            proof {
                lemma_all_values_taken(keys@, priority, speed);
            }
            return None;
        }
        value += 1;
    }
}

/// Draws a tie-break value for the key of a move with the given priority
/// and speed until one is drawn that no key of the queue holds. After the
/// retries the lowest value that no key holds is taken; the last value
/// drawn is kept where every value is held.
fn fresh_tiebreak(
    keys: &Vec<MovePriority>,
    priority: Priority,
    speed: BaseStat,
    random: &mut StdRng,
) -> (value:
    u16)
    ensures
        keys@.len() <= u16::MAX ==> !keys@.contains(tied(priority, speed, value)),
{
    let mut value: u16 = roll_tiebreak(random);
    let mut tries: usize = 0;
    while tries < TIEBREAK_RETRIES && holds_key(
        keys,
        MovePriority::Second(priority, speed, Some(value)),
    )
        invariant
            tries <= TIEBREAK_RETRIES,
        decreases TIEBREAK_RETRIES - tries,
    {
        value = roll_tiebreak(random);
        tries += 1;
    }
    if holds_key(keys, MovePriority::Second(priority, speed, Some(value))) {
        match free_tiebreak(keys, priority, speed) {
            Some(free) => free,
            None => value,
        }
    } else {
        value
    }
}

/// Whether the queue holds the key.
fn holds_key(keys: &Vec<MovePriority>, key: MovePriority) -> (holds: bool)
    ensures
        holds == keys@.contains(key),
{
    let mut i: usize = 0;
    while i < keys.len()
        invariant
            i <= keys.len(),
            forall|k: int| 0 <= k < i ==> keys@[k] != key,
        decreases keys.len() - i,
    {
        if keys[i] == key {
            return true;
        }
        i += 1;
    }
    false
}

/// Whether another key of the queue names the same priority and speed as
/// the key at `i`.
fn has_rival(keys: &Vec<MovePriority>, i: usize) -> (rival: bool)
    requires
        i < keys@.len(),
    ensures
        rival == (exists|j: int|
            0 <= j < keys@.len() && j != i && base_of(#[trigger] keys@[j]) == base_of(
                keys@[i as int],
            )),
{
    let mut j: usize = 0;
    while j < keys.len()
        invariant
            j <= keys.len(),
            i < keys@.len(),
            forall|k: int|
                0 <= k < j && k != i ==> base_of(#[trigger] keys@[k]) != base_of(keys@[i as int]),
        decreases keys.len() - j,
    {
        if j != i && same_base(keys[j], keys[i]) {
            return true;
        }
        j += 1;
    }
    false
}

/// Breaks the ties of a queue: every key of a move that collides with
/// another gets a tie-break value drawn at random; the other keys are left
/// as they are.
pub fn break_ties(keys: &mut Vec<MovePriority>, random: &mut StdRng)
    ensures
        final(keys)@.len() == old(keys)@.len(),
        forall|i: int|
            0 <= i < old(keys)@.len() ==> base_of(#[trigger] final(keys)@[i]) == base_of(
                old(keys)@[i],
            ),
        forall|i: int|
            0 <= i < old(keys)@.len() && !collides(old(keys)@, i) ==> #[trigger] final(keys)@[i]
                == old(keys)@[i],
        forall|i: int|
            0 <= i < old(keys)@.len() && collides(old(keys)@, i)
                ==> (#[trigger] final(keys)@[i] matches MovePriority::Second(_, _, Some(_))),
        distinct_firsts(old(keys)@) && old(keys)@.len() <= u16::MAX ==> distinct_keys(final(keys)@),
{
    let mut i: usize = 0;
    while i < keys.len()
        invariant
            i <= keys.len(),
            keys@.len() == old(keys)@.len(),
            distinct_firsts(old(keys)@) && old(keys)@.len() <= u16::MAX ==> forall|a: int, b: int|
                0 <= a < i && 0 <= b < keys@.len() && a != b ==> #[trigger] keys@[a]
                    != #[trigger] keys@[b],
            forall|k: int|
                0 <= k < keys@.len() ==> base_of(#[trigger] keys@[k]) == base_of(old(keys)@[k]),
            forall|k: int| i <= k < keys@.len() ==> #[trigger] keys@[k] == old(keys)@[k],
            forall|k: int|
                0 <= k < i && !collides(old(keys)@, k) ==> #[trigger] keys@[k] == old(keys)@[k],
            forall|k: int|
                0 <= k < i && collides(old(keys)@, k)
                    ==> (#[trigger] keys@[k] matches MovePriority::Second(
                    _,
                    _,
                    Some(_),
                )),
        decreases keys.len() - i,
    {
        match keys[i] {
            MovePriority::Second(priority, speed, _) => {
                let rival: bool = has_rival(keys, i);
                proof {
                    if collides(old(keys)@, i as int) {
                        let j = choose|j: int|
                            0 <= j < old(keys)@.len() && j != i && base_of(
                                #[trigger] old(keys)@[j],
                            ) == base_of(old(keys)@[i as int]);
                        assert(base_of(keys@[j]) == base_of(keys@[i as int]));
                    }
                }
                if rival {
                    let value: u16 = fresh_tiebreak(keys, priority, speed, random);
                    keys[i] = MovePriority::Second(priority, speed, Some(value));
                }
            },
            MovePriority::First(..) => {},
        }
        i += 1;
    }
}

/// Sorts a queue by its keys. Intents whose keys are equal stay in the
/// order they had.
fn sort_queue(
    keys: Vec<MovePriority>,
    queue: Vec<Indexed<BattleMove>>,
    Ghost(fits): Ghost<spec_fn(MovePriority, Indexed<BattleMove>) -> bool>,
) -> (sorted: (Vec<MovePriority>, Vec<Indexed<BattleMove>>))
    requires
        keys@.len() == queue@.len(),
        forall|i: int| 0 <= i < keys@.len() ==> fits(#[trigger] keys@[i], queue@[i]),
    ensures
        sorted.0@.len() == sorted.1@.len(),
        in_order(sorted.0@),
        sorted.1@.to_multiset() == queue@.to_multiset(),
        forall|i: int| 0 <= i < sorted.0@.len() ==> fits(#[trigger] sorted.0@[i], sorted.1@[i]),
{
    let mut keys = keys;
    let mut queue = queue;
    let ghost given = queue@;
    let mut sorted_keys: Vec<MovePriority> = Vec::new();
    let mut sorted: Vec<Indexed<BattleMove>> = Vec::new();
    proof {
        broadcast use vstd::seq_lib::group_to_multiset_ensures;
    }
    while keys.len() > 0
        invariant
            keys@.len() == queue@.len(),
            sorted_keys@.len() == sorted@.len(),
            in_order(sorted_keys@),
            sorted@.to_multiset().add(queue@.to_multiset()) == given.to_multiset(),
            forall|i: int| 0 <= i < keys@.len() ==> fits(#[trigger] keys@[i], queue@[i]),
            forall|i: int|
                0 <= i < sorted_keys@.len() ==> fits(#[trigger] sorted_keys@[i], sorted@[i]),
        decreases keys@.len(),
    {
        let key = keys.remove(0);
        let entry = queue.remove(0);
        let mut at: usize = 0;
        while at < sorted_keys.len() && !goes_before(key, sorted_keys[at])
            invariant
                at <= sorted_keys@.len(),
                in_order(sorted_keys@),
                forall|k: int| 0 <= k < at ==> !precedes(key, #[trigger] sorted_keys@[k]),
            decreases sorted_keys@.len() - at,
        {
            at += 1;
        }
        sorted_keys.insert(at, key);
        sorted.insert(at, entry);
        proof {
            broadcast use vstd::seq_lib::group_to_multiset_ensures;
        }
    }
    (sorted_keys, sorted)
}

/// The order of keys is a strict order in which any two keys that differ
/// are ordered.
pub proof fn lemma_order(a: MovePriority, b: MovePriority, c: MovePriority)
    ensures
        !precedes(a, a),
        precedes(a, b) && precedes(b, c) ==> precedes(a, c),
        !precedes(a, b) && !precedes(b, c) ==> !precedes(a, c),
        a != b ==> precedes(a, b) || precedes(b, a),
        !(precedes(a, b) && precedes(b, a)),
{
}

/// Whether `after` is the participant `before` with the intents of its
/// party taken, if it takes part, and unchanged if it does not.
pub open spec fn intents_taken(before: BattlePlayer, after: BattlePlayer) -> bool {
    if before.deactivated {
        after == before
    } else {
        &&& after.settings == before.settings
        &&& after.inbox == before.inbox
        &&& after.waiting == before.waiting
        &&& after.deactivated == before.deactivated
        &&& cleared(before.party, after.party)
    }
}

/// Whether `queue` is an order of the intents that were queued among
/// `players`: it holds each of them once and nothing else, and no intent
/// stands behind one that its key puts it before.
pub open spec fn is_schedule(players: Seq<BattlePlayer>, queue: Seq<Indexed<BattleMove>>) -> bool {
    &&& queue.to_multiset() == pending_intents(players, players.len() as int).to_multiset()
    &&& forall|i: int, j: int|
        0 <= i < j < queue.len() ==> !precedes(
            rank_key(players, (#[trigger] queue[j]).0, queue[j].1),
            rank_key(players, (#[trigger] queue[i]).0, queue[i].1),
        )
}

/// In a schedule every intent that is no move stands before every move.
pub proof fn lemma_moves_go_last(players: Seq<BattlePlayer>, queue: Seq<Indexed<BattleMove>>)
    requires
        is_schedule(players, queue),
    ensures
        forall|i: int, j: int|
            0 <= i < j < queue.len() && (#[trigger] queue[i]).1.is_move() ==> (
            #[trigger] queue[j]).1.is_move(),
{
}

/// A schedule holds as many entries as intents were queued, and an intent
/// is in it exactly if it was queued: none is lost, none is made up, none
/// is doubled.
pub proof fn lemma_schedule_keeps_intents(
    players: Seq<BattlePlayer>,
    queue: Seq<Indexed<BattleMove>>,
)
    requires
        is_schedule(players, queue),
    ensures
        queue.len() == pending_intents(players, players.len() as int).len(),
        forall|intent: Indexed<BattleMove>|
            queue.to_multiset().count(intent) == pending_intents(
                players,
                players.len() as int,
            ).to_multiset().count(intent),
        forall|intent: Indexed<BattleMove>|
            queue.contains(intent) <==> pending_intents(players, players.len() as int).contains(
                intent,
            ),
{
    broadcast use vstd::seq_lib::group_to_multiset_ensures;

    let given = pending_intents(players, players.len() as int);
    assert(given.len() == given.to_multiset().len());
    assert forall|intent: Indexed<BattleMove>| queue.contains(intent) <==> given.contains(
        intent,
    ) by {
        assert(queue.to_multiset().count(intent) == given.to_multiset().count(intent));
    }
}

/// Takes the intents queued among the participants that take part and
/// returns them in the order in which they are resolved: intents that are
/// no move first, by participant and slot; then the moves, by priority,
/// then by the speed of the user, then by tie-break values drawn at random
/// for the moves that are equal in both.
pub fn move_queue(players: &mut Vec<BattlePlayer>, random: &mut StdRng) -> (queue: Vec<
    Indexed<BattleMove>,
>)
    requires
        players_wf(old(players)@),
    ensures
        players_wf(final(players)@),
        final(players)@.len() == old(players)@.len(),
        forall|k: int|
            0 <= k < old(players)@.len() ==> intents_taken(
                old(players)@[k],
                #[trigger] final(players)@[k],
            ),
        is_schedule(old(players)@, queue@),
{
    let mut keys: Vec<MovePriority> = Vec::new();
    let mut queue: Vec<Indexed<BattleMove>> = Vec::new();
    let mut seat: usize = 0;
    while seat < players.len()
        invariant
            seat <= players.len(),
            players_wf(old(players)@),
            players_wf(players@),
            players@.len() == old(players)@.len(),
            forall|k: int| 0 <= k < seat
                ==> intents_taken(old(players)@[k], #[trigger] players@[k]),
            forall|k: int| seat <= k < players@.len() ==> #[trigger] players@[k]
                == old(players)@[k],
            queue@ == pending_intents(old(players)@, seat as int),
            keys@.len() == queue@.len(),
            forall|i: int|
                0 <= i < keys@.len() ==> #[trigger] keys@[i] == rank_key(
                    old(players)@,
                    queue@[i].0,
                    queue@[i].1,
                ),
        decreases players.len() - seat,
    {
        if !players[seat].deactivated {
            let ghost had = keys@.len();
            queue_player(&mut keys, &mut queue, &mut players[seat].party);
            proof {
                assert forall|i: int| 0 <= i < keys@.len() implies #[trigger] keys@[i]
                    == rank_key(old(players)@, queue@[i].0, queue@[i].1) by {
                    if i >= had {
                        lemma_seat_unique(old(players)@, queue@[i].0.0, seat as int);
                    }
                }
            }
        }
        seat += 1;
    }
    break_ties(&mut keys, random);
    let ghost given = old(players)@;
    let ghost fits = |key: MovePriority, entry: Indexed<BattleMove>|
        base_of(key) == rank_key(given, entry.0, entry.1);
    let (sorted_keys, sorted) = sort_queue(keys, queue, Ghost(fits));
    proof {
        assert forall|i: int, j: int| 0 <= i < j < sorted@.len() implies !precedes(
            rank_key(given, (#[trigger] sorted@[j]).0, sorted@[j].1),
            rank_key(given, (#[trigger] sorted@[i]).0, sorted@[i].1),
        ) by {
            assert(fits(sorted_keys@[i], sorted@[i]));
            assert(fits(sorted_keys@[j], sorted@[j]));
        }
    }
    sorted
}

} // verus!
