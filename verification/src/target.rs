//! Which creatures a move is aimed at.

use crate::moves::MoveTarget;
use crate::player::BattlePlayer;
use crate::pokemon::PokemonIdentifier;
use crate::random::roll_index;
use rand::rngs::StdRng;
use vstd::prelude::*;

verus! {

/// The identifier of the active slot `slot` of the participant at `seat`.
pub open spec fn target_at(players: Seq<BattlePlayer>, seat: int, slot: int) -> PokemonIdentifier {
    PokemonIdentifier(players[seat].party.id, slot as usize)
}

/// Whether a move of `user` that takes every fitting creature, or a random
/// one of them, can take the creature that `at` addresses.
///
/// Allies are the other creatures of the user's participant; opponents are
/// the creatures of the other participants. A move aimed at one chosen
/// creature draws from the opponents where none was chosen.
pub open spec fn aimed(kind: MoveTarget, user: PokemonIdentifier, at: PokemonIdentifier) -> bool {
    match kind {
        MoveTarget::Allies => at.0 == user.0 && at.1 != user.1,
        MoveTarget::UserAndAllies => at.0 == user.0,
        MoveTarget::AllOtherPokemon => at != user,
        MoveTarget::AllPokemon => true,
        MoveTarget::AllOpponents => at.0 != user.0,
        MoveTarget::RandomOpponent => at.0 != user.0,
        MoveTarget::Any => at.0 != user.0,
        MoveTarget::Opponent => at.0 != user.0,
        _ => false,
    }
}

/// Whether the active slot `slot` of the participant at `seat` holds a
/// creature that a move of `user` can take: the participant takes part,
/// the slot is occupied, and the move is aimed at it.
pub open spec fn fits(
    players: Seq<BattlePlayer>,
    kind: MoveTarget,
    user: PokemonIdentifier,
    seat: int,
    slot: int,
) -> bool {
    &&& 0 <= seat < players.len()
    &&& 0 <= slot < players[seat].party.active@.len()
    &&& !players[seat].deactivated
    &&& players[seat].party.index_at(slot) is Some
    &&& aimed(kind, user, target_at(players, seat, slot))
}

/// Whether the place `(seat, slot)` comes before the place `(to_seat,
/// to_slot)`: participants in their order, and the slots of one participant
/// in theirs.
pub open spec fn comes_before(seat: int, slot: int, to_seat: int, to_slot: int) -> bool {
    seat < to_seat || (seat == to_seat && slot < to_slot)
}

/// Whether `targets` are the identifiers of the places `places`, which are
/// exactly the fitting places, each once, in order.
pub open spec fn lists_all(
    players: Seq<BattlePlayer>,
    kind: MoveTarget,
    user: PokemonIdentifier,
    targets: Seq<PokemonIdentifier>,
    places: Seq<(int, int)>,
) -> bool {
    &&& places.len() == targets.len()
    &&& forall|i: int|
        0 <= i < places.len() ==> fits(players, kind, user, (#[trigger] places[i]).0, places[i].1)
            && targets[i] == target_at(players, places[i].0, places[i].1)
    &&& forall|i: int, j: int|
        0 <= i < j < places.len() ==> comes_before(
            (#[trigger] places[i]).0,
            places[i].1,
            (#[trigger] places[j]).0,
            places[j].1,
        )
    &&& forall|seat: int, slot: int|
        fits(players, kind, user, seat, slot) ==> #[trigger] places.contains((seat, slot))
}

/// Whether `targets` are all creatures that a move of `user` of the given
/// kind takes: every fitting creature, once, participants in their order
/// and the slots of each in theirs.
pub open spec fn is_all(
    players: Seq<BattlePlayer>,
    kind: MoveTarget,
    user: PokemonIdentifier,
    targets: Seq<PokemonIdentifier>,
) -> bool {
    exists|places: Seq<(int, int)>| #[trigger] lists_all(players, kind, user, targets, places)
}

/// Whether `targets` is one of the creatures that a move of `user` of the
/// given kind can take, or nothing where it can take none.
pub open spec fn is_one_of(
    players: Seq<BattlePlayer>,
    kind: MoveTarget,
    user: PokemonIdentifier,
    targets: Seq<PokemonIdentifier>,
) -> bool {
    if exists|seat: int, slot: int| fits(players, kind, user, seat, slot) {
        targets.len() == 1 && exists|seat: int, slot: int|
            fits(players, kind, user, seat, slot) && targets[0] == #[trigger] target_at(
                players,
                seat,
                slot,
            )
    } else {
        targets.len() == 0
    }
}

/// Whether `targets` are what a move of `user` is aimed at.
///
/// - At the user: the user.
/// - At no creature: nothing.
/// - At one creature, opponent or any: the chosen one, or a random
///   opponent where none was chosen.
/// - At an ally: the chosen one, or nothing.
/// - At the user or an ally: the chosen one, or the user.
/// - At a random opponent: one of the opponents.
/// - At allies, the user and allies, all opponents, all others, all:
///   every creature that fits.
pub open spec fn targets_allowed(
    players: Seq<BattlePlayer>,
    kind: MoveTarget,
    user: PokemonIdentifier,
    targeting: Option<PokemonIdentifier>,
    targets: Seq<PokemonIdentifier>,
) -> bool {
    match kind {
        MoveTarget::User => targets == seq![user],
        MoveTarget::NoTarget => targets.len() == 0,
        MoveTarget::Any | MoveTarget::Opponent => match targeting {
            Some(chosen) => targets == seq![chosen],
            None => is_one_of(players, kind, user, targets),
        },
        MoveTarget::Ally => match targeting {
            Some(chosen) => targets == seq![chosen],
            None => targets.len() == 0,
        },
        MoveTarget::UserOrAlly => match targeting {
            Some(chosen) => targets == seq![chosen],
            None => targets == seq![user],
        },
        MoveTarget::RandomOpponent => is_one_of(players, kind, user, targets),
        _ => is_all(players, kind, user, targets),
    }
}

/// Whether a move of the given kind can take the creature that `at`
/// addresses.
fn is_aimed(kind: MoveTarget, user: PokemonIdentifier, at: PokemonIdentifier) -> (fits: bool)
    ensures
        fits == aimed(kind, user, at),
{
    match kind {
        MoveTarget::Allies => at.0 == user.0 && at.1 != user.1,
        MoveTarget::UserAndAllies => at.0 == user.0,
        MoveTarget::AllOtherPokemon => !(at.0 == user.0 && at.1 == user.1),
        MoveTarget::AllPokemon => true,
        MoveTarget::AllOpponents => at.0 != user.0,
        MoveTarget::RandomOpponent => at.0 != user.0,
        MoveTarget::Any => at.0 != user.0,
        MoveTarget::Opponent => at.0 != user.0,
        _ => false,
    }
}

/// Every creature that a move of `user` of the given kind can take.
pub fn all_targets(
    players: &Vec<BattlePlayer>,
    kind: MoveTarget,
    user: PokemonIdentifier,
) -> (targets:
    Vec<PokemonIdentifier>)
    ensures
        is_all(players@, kind, user, targets@),
{
    let mut targets: Vec<PokemonIdentifier> = Vec::new();
    let ghost mut places: Seq<(int, int)> = Seq::empty();
    let mut seat: usize = 0;
    while seat < players.len()
        invariant
            seat <= players.len(),
            places.len() == targets@.len(),
            forall|i: int|
                0 <= i < places.len() ==> fits(
                    players@,
                    kind,
                    user,
                    (#[trigger] places[i]).0,
                    places[i].1,
                ) && targets@[i] == target_at(players@, places[i].0, places[i].1) && places[i].0
                    < seat,
            forall|i: int, j: int|
                0 <= i < j < places.len() ==> comes_before(
                    (#[trigger] places[i]).0,
                    places[i].1,
                    (#[trigger] places[j]).0,
                    places[j].1,
                ),
            forall|k: int, s: int|
                k < seat && fits(players@, kind, user, k, s) ==> #[trigger] places.contains((k, s)),
        decreases players.len() - seat,
    {
        let mut slot: usize = 0;
        while slot < players[seat].party.active.len()
            invariant
                seat < players.len(),
                slot <= players@[seat as int].party.active@.len(),
                places.len() == targets@.len(),
                forall|i: int|
                    0 <= i < places.len() ==> fits(
                        players@,
                        kind,
                        user,
                        (#[trigger] places[i]).0,
                        places[i].1,
                    ) && targets@[i] == target_at(players@, places[i].0, places[i].1)
                        && comes_before(places[i].0, places[i].1, seat as int, slot as int),
                forall|i: int, j: int|
                    0 <= i < j < places.len() ==> comes_before(
                        (#[trigger] places[i]).0,
                        places[i].1,
                        (#[trigger] places[j]).0,
                        places[j].1,
                    ),
                forall|k: int, s: int|
                    comes_before(k, s, seat as int, slot as int) && fits(players@, kind, user, k, s)
                        ==> #[trigger] places.contains((k, s)),
            decreases players@[seat as int].party.active@.len() - slot,
        {
            let at = PokemonIdentifier(players[seat].party.id, slot);
            if !players[seat].deactivated && players[seat].party.index(slot).is_some() && is_aimed(
                kind,
                user,
                at,
            ) {
                let ghost earlier = places;
                targets.push(at);
                proof {
                    places = places.push((seat as int, slot as int));
                    assert forall|k: int, s: int|
                        comes_before(k, s, seat as int, slot + 1) && fits(
                            players@,
                            kind,
                            user,
                            k,
                            s,
                        ) implies #[trigger] places.contains((k, s)) by {
                        if comes_before(k, s, seat as int, slot as int) {
                            assert(earlier.contains((k, s)));
                            let i = choose|i: int| 0 <= i < earlier.len() && earlier[i] == (k, s);
                            assert(places[i] == (k, s));
                        } else {
                            assert(places[earlier.len() as int] == (k, s));
                        }
                    }
                }
            }
            slot += 1;
        }
        seat += 1;
    }
    assert(lists_all(players@, kind, user, targets@, places));
    targets
}

/// One of the creatures that a move of `user` of the given kind can take,
/// drawn at random, or nothing where it can take none.
pub fn random_target(
    players: &Vec<BattlePlayer>,
    kind: MoveTarget,
    user: PokemonIdentifier,
    random: &mut StdRng,
) -> (targets: Vec<PokemonIdentifier>)
    ensures
        is_one_of(players@, kind, user, targets@),
{
    let candidates = all_targets(players, kind, user);
    let ghost places = choose|places: Seq<(int, int)>|
        lists_all(players@, kind, user, candidates@, places);
    let mut targets: Vec<PokemonIdentifier> = Vec::new();
    if candidates.len() > 0 {
        let drawn: usize = roll_index(random, candidates.len());
        targets.push(candidates[drawn]);
        proof {
            let place = places[drawn as int];
        }
    } else {
        proof {
            if exists|seat: int, slot: int| fits(players@, kind, user, seat, slot) {
                let (seat, slot) = choose|seat: int, slot: int|
                    fits(players@, kind, user, seat, slot);
                assert(places.contains((seat, slot)));
            }
        }
    }
    targets
}

/// The creatures that a move of `user` is aimed at.
pub fn create_targets(
    players: &Vec<BattlePlayer>,
    user: PokemonIdentifier,
    kind: MoveTarget,
    targeting: Option<PokemonIdentifier>,
    random: &mut StdRng,
) -> (targets: Vec<PokemonIdentifier>)
    ensures
        targets_allowed(players@, kind, user, targeting, targets@),
{
    match kind {
        MoveTarget::User => {
            let mut targets: Vec<PokemonIdentifier> = Vec::new();
            targets.push(user);
            targets
        },
        MoveTarget::NoTarget => Vec::new(),
        MoveTarget::Any | MoveTarget::Opponent => match targeting {
            Some(chosen) => {
                let mut targets: Vec<PokemonIdentifier> = Vec::new();
                targets.push(chosen);
                targets
            },
            None => random_target(players, kind, user, random),
        },
        MoveTarget::Ally => match targeting {
            Some(chosen) => {
                let mut targets: Vec<PokemonIdentifier> = Vec::new();
                targets.push(chosen);
                targets
            },
            None => Vec::new(),
        },
        MoveTarget::UserOrAlly => {
            let one: PokemonIdentifier = match targeting {
                Some(chosen) => chosen,
                None => user,
            };
            let mut targets: Vec<PokemonIdentifier> = Vec::new();
            targets.push(one);
            targets
        },
        MoveTarget::RandomOpponent => random_target(players, kind, user, random),
        _ => all_targets(players, kind, user),
    }
}

} // verus!
