//! Applying the outcomes of a resolved action to the participants'
//! parties.

use crate::data::BattleType;
use crate::moves::{ClientMove, ClientMoveAction, Experience, MoveId, MoveResult, PP};
use crate::party::{slots_without, ActivePokemon, BattleParty};
use crate::player::{find_player, ids_distinct, players_wf, seat_of, BattlePlayer};
use crate::pokemon::{
    battle_exp, duplicate_of, progressed, spent, BattlePokemon, Indexed, ItemAction,
    PokemonIdentifier, RemotePokemon,
};
use vstd::prelude::*;

verus! {

/// The uses that a move costs.
pub const MOVE_COST: PP = 1;

/// Whether `after` is `before` except for the participant at `seat`, who
/// may differ in its bench and its active slots only.
pub open spec fn changed_at(
    before: Seq<BattlePlayer>,
    after: Seq<BattlePlayer>,
    seat: int,
) -> bool {
    &&& after.len() == before.len()
    &&& 0 <= seat < before.len()
    &&& forall|k: int| 0 <= k < before.len() && k != seat ==> #[trigger] after[k] == before[k]
    &&& after[seat].settings == before[seat].settings
    &&& after[seat].inbox == before[seat].inbox
    &&& after[seat].waiting == before[seat].waiting
    &&& after[seat].deactivated == before[seat].deactivated
    &&& after[seat].party.id == before[seat].party.id
}

/// Whether `after` has the participants of `before`, each with as many
/// creatures on its bench.
pub open spec fn same_shape(before: Seq<BattlePlayer>, after: Seq<BattlePlayer>) -> bool {
    &&& after.len() == before.len()
    &&& forall|k: int|
        0 <= k < before.len() ==> (#[trigger] after[k]).party.id == before[k].party.id
            && after[k].party.pokemon@.len() == before[k].party.pokemon@.len()
}

/// The bench index of the creature that an identifier addresses through an
/// active slot, with the position of its participant.
pub open spec fn place_of(players: Seq<BattlePlayer>, id: PokemonIdentifier) -> Option<(int, int)> {
    match seat_of(players, id.0) {
        Some(seat) => match players[seat].party.index_at(id.1 as int) {
            Some(index) => Some((seat, index as int)),
            None => None,
        },
        None => None,
    }
}

/// Whether `after` is `before` once one outcome was applied to the creature
/// that `target` addresses: the creature takes the outcome and, where that
/// leaves it without health, leaves its active slot. Nothing changes where
/// `target` addresses no creature.
pub open spec fn struck(
    before: Seq<BattlePlayer>,
    after: Seq<BattlePlayer>,
    target: PokemonIdentifier,
    result: MoveResult,
) -> bool {
    match place_of(before, target) {
        None => after == before,
        Some((seat, index)) => {
            let party = before[seat].party;
            let creature = party.pokemon@[index].after(result);
            &&& changed_at(before, after, seat)
            &&& after[seat].party.pokemon@ == party.pokemon@.update(index, creature)
            &&& after[seat].party.active@ == (if BattleParty::faints(creature, result) {
                party.active@.update(target.1 as int, None)
            } else {
                party.active@
            })
        },
    }
}

/// What the clients are shown of an outcome applied to `target`.
pub open spec fn strike_record(
    before: Seq<BattlePlayer>,
    target: PokemonIdentifier,
    result: MoveResult,
) -> Option<ClientMoveAction> {
    match place_of(before, target) {
        None => None,
        Some((seat, index)) => before[seat].party.pokemon@[index].after(result).record(result),
    }
}

/// The experience that an outcome applied to `target` sets free: that of the
/// creature it makes faint.
pub open spec fn strike_experience(
    before: Seq<BattlePlayer>,
    type_: BattleType,
    target: PokemonIdentifier,
    result: MoveResult,
) -> Option<Experience> {
    match place_of(before, target) {
        None => None,
        Some((seat, index)) => {
            let creature = before[seat].party.pokemon@[index].after(result);
            if BattleParty::faints(creature, result) {
                Some(battle_exp(creature.base_exp, creature.level, type_))
            } else {
                None
            }
        },
    }
}

/// Whether the creature of `user` earns the experience of a creature of
/// `target`'s participant: the two belong to different participants, and the
/// user's participant lets its creatures gain experience.
pub open spec fn earns(
    players: Seq<BattlePlayer>,
    user: PokemonIdentifier,
    target: PokemonIdentifier,
) -> bool {
    &&& user.0 != target.0
    &&& seat_of(players, user.0) matches Some(seat) && players[seat].settings.gains_exp
}

/// Whether `after` is `before` once the creature that `user` addresses has
/// gained `experience`. Nothing changes where `user` addresses no creature.
pub open spec fn rewarded(
    before: Seq<BattlePlayer>,
    after: Seq<BattlePlayer>,
    user: PokemonIdentifier,
    experience: Experience,
) -> bool {
    match place_of(before, user) {
        None => after == before,
        Some((seat, index)) => {
            let party = before[seat].party;
            &&& changed_at(before, after, seat)
            &&& after[seat].party.active == party.active
            &&& after[seat].party.pokemon@.len() == party.pokemon@.len()
            &&& forall|i: int|
                0 <= i < party.pokemon@.len() && i != index
                    ==> #[trigger] after[seat].party.pokemon@[i] == party.pokemon@[i]
            &&& progressed(party.pokemon@[index], after[seat].party.pokemon@[index], experience)
        },
    }
}

/// What the clients are shown of experience gained: the amount and the
/// level reached.
pub open spec fn reward_record(
    before: Seq<BattlePlayer>,
    after: Seq<BattlePlayer>,
    user: PokemonIdentifier,
    experience: Experience,
) -> Option<ClientMoveAction> {
    match place_of(before, user) {
        None => None,
        Some((seat, index)) => Some(
            ClientMoveAction::SetExp(experience, after[seat].party.pokemon@[index].level),
        ),
    }
}

/// The one record `record` about `about`, or none.
pub open spec fn recorded(about: PokemonIdentifier, record: Option<ClientMoveAction>) -> Seq<
    Indexed<ClientMoveAction>,
> {
    match record {
        Some(record) => seq![Indexed(about, record)],
        None => Seq::empty(),
    }
}

/// Whether `after` and `records` are what applying one outcome of an action
/// of `user` to `before` gives. The outcome is applied to its target; if
/// that makes the target faint and the user earns its experience, the
/// user's creature gains it. The records are that of the outcome, then
/// that of the experience.
pub open spec fn outcome_applied(
    before: Seq<BattlePlayer>,
    after: Seq<BattlePlayer>,
    type_: BattleType,
    user: PokemonIdentifier,
    target: PokemonIdentifier,
    result: MoveResult,
    records: Seq<Indexed<ClientMoveAction>>,
) -> bool {
    exists|hit: Seq<BattlePlayer>|
        {
            &&& #[trigger] struck(before, hit, target, result)
            &&& match strike_experience(before, type_, target, result) {
                Some(experience) if earns(before, user, target) => {
                    &&& rewarded(hit, after, user, experience)
                    &&& records == recorded(target, strike_record(before, target, result))
                        + recorded(user, reward_record(hit, after, user, experience))
                },
                _ => {
                    &&& after == hit
                    &&& records == recorded(target, strike_record(before, target, result))
                },
            }
        }
}

/// Whether `after` and `records` are what applying the outcomes `output` of
/// an action of `user` to `before` gives, one after the other.
pub open spec fn results_applied(
    before: Seq<BattlePlayer>,
    after: Seq<BattlePlayer>,
    type_: BattleType,
    user: PokemonIdentifier,
    output: Seq<Indexed<MoveResult>>,
    records: Seq<Indexed<ClientMoveAction>>,
) -> bool
    decreases output.len(),
{
    if output.len() == 0 {
        after == before && records.len() == 0
    } else {
        exists|mid: Seq<BattlePlayer>, n: int|
            {
                &&& 0 <= n <= records.len()
                &&& results_applied(
                    before,
                    mid,
                    type_,
                    user,
                    output.drop_last(),
                    records.take(n),
                )
                &&& #[trigger] outcome_applied(
                    mid,
                    after,
                    type_,
                    user,
                    output.last().0,
                    output.last().1,
                    records.skip(n),
                )
            }
    }
}

/// Outcomes applied one after the other: what holds of all but the last,
/// and of the last after them, holds of all.
pub proof fn lemma_results_extend(
    before: Seq<BattlePlayer>,
    mid: Seq<BattlePlayer>,
    after: Seq<BattlePlayer>,
    type_: BattleType,
    user: PokemonIdentifier,
    output: Seq<Indexed<MoveResult>>,
    records: Seq<Indexed<ClientMoveAction>>,
    n: int,
)
    requires
        output.len() > 0,
        0 <= n <= records.len(),
        results_applied(before, mid, type_, user, output.drop_last(), records.take(n)),
        outcome_applied(mid, after, type_, user, output.last().0, output.last().1, records.skip(n)),
    ensures
        results_applied(before, after, type_, user, output, records),
{
}

/// Applies one outcome to the creature that `target` addresses.
fn strike(
    players: &mut Vec<BattlePlayer>,
    type_: BattleType,
    target: PokemonIdentifier,
    result: MoveResult,
) -> (strike: (Option<ClientMoveAction>, Option<Experience>))
    requires
        players_wf(old(players)@),
    ensures
        players_wf(final(players)@),
        struck(old(players)@, final(players)@, target, result),
        same_shape(old(players)@, final(players)@),
        strike.0 == strike_record(old(players)@, target, result),
        strike.1 == strike_experience(old(players)@, type_, target, result),
{
    match find_player(players, target.0) {
        None => (None, None),
        Some(seat) => {
            let outcome = players[seat].party.strike(target.1, result, type_);
            match outcome {
                None => {
                    assert(players@ =~= old(players)@);
                    (None, None)
                },
                Some(strike) => (strike.record, strike.experience),
            }
        },
    }
}

/// Gives the creature that `user` addresses the experience of a defeated
/// opponent.
fn reward(
    players: &mut Vec<BattlePlayer>,
    user: PokemonIdentifier,
    experience: Experience,
) -> (record:
    Option<ClientMoveAction>)
    requires
        players_wf(old(players)@),
    ensures
        players_wf(final(players)@),
        rewarded(old(players)@, final(players)@, user, experience),
        same_shape(old(players)@, final(players)@),
        record == reward_record(old(players)@, final(players)@, user, experience),
{
    match find_player(players, user.0) {
        None => None,
        Some(seat) => {
            let record = players[seat].party.reward(user.1, experience);
            proof {
                if record is None {
                    assert(players@ =~= old(players)@);
                }
            }
            record
        },
    }
}

/// Whether the user of an action earns the experience of its target.
fn earns_from(
    players: &Vec<BattlePlayer>,
    user: PokemonIdentifier,
    target: PokemonIdentifier,
) -> (earns_it:
    bool)
    requires
        ids_distinct(players@),
    ensures
        earns_it == earns(players@, user, target),
{
    if user.0 == target.0 {
        false
    } else {
        match find_player(players, user.0) {
            Some(seat) => players[seat].settings.gains_exp,
            None => false,
        }
    }
}

/// Applies one outcome of an action of `user` and returns what the clients
/// are shown of it.
pub fn apply_outcome(
    players: &mut Vec<BattlePlayer>,
    type_: BattleType,
    user: PokemonIdentifier,
    target: PokemonIdentifier,
    result: MoveResult,
) -> (records: Vec<Indexed<ClientMoveAction>>)
    requires
        players_wf(old(players)@),
    ensures
        players_wf(final(players)@),
        outcome_applied(old(players)@, final(players)@, type_, user, target, result, records@),
        same_shape(old(players)@, final(players)@),
{
    let mut records: Vec<Indexed<ClientMoveAction>> = Vec::new();
    let earning: bool = earns_from(players, user, target);
    let (record, experience) = strike(players, type_, target, result);
    let ghost hit = players@;
    match record {
        Some(record) => {
            records.push(Indexed(target, record));
        },
        None => {},
    }
    match experience {
        Some(experience) => {
            if earning {
                let gained = reward(players, user, experience);
                let ghost shown = records@;
                match gained {
                    Some(gained) => {
                        records.push(Indexed(user, gained));
                    },
                    None => {},
                }
                assert(records@ =~= shown + recorded(
                    user,
                    reward_record(hit, players@, user, experience),
                ));
            }
        },
        None => {},
    }
    records
}

/// Applies the outcomes of an action of `user`, in order, and returns what
/// the clients are shown of them.
pub fn apply_results(
    players: &mut Vec<BattlePlayer>,
    type_: BattleType,
    user: PokemonIdentifier,
    output: &Vec<Indexed<MoveResult>>,
) -> (records: Vec<Indexed<ClientMoveAction>>)
    requires
        players_wf(old(players)@),
    ensures
        players_wf(final(players)@),
        results_applied(old(players)@, final(players)@, type_, user, output@, records@),
        same_shape(old(players)@, final(players)@),
{
    let mut records: Vec<Indexed<ClientMoveAction>> = Vec::new();
    let mut i: usize = 0;
    while i < output.len()
        invariant
            i <= output.len(),
            players_wf(players@),
            results_applied(old(players)@, players@, type_, user, output@.take(i as int), records@),
            same_shape(old(players)@, players@),
        decreases output.len() - i,
    {
        let ghost mid = players@;
        let ghost shown = records@;
        let mut more = apply_outcome(players, type_, user, output[i].0, output[i].1);
        let ghost added = more@;
        records.append(&mut more);
        proof {
            let done = output@.take(i + 1);
            assert(done.drop_last() =~= output@.take(i as int));
            assert(records@.take(shown.len() as int) =~= shown);
            assert(records@.skip(shown.len() as int) =~= added);
            lemma_results_extend(
                old(players)@,
                mid,
                players@,
                type_,
                user,
                done,
                records@,
                shown.len() as int,
            );
        }
        i += 1;
    }
    assert(output@.take(output.len() as int) =~= output@);
    records
}

/// Whether `after` is `before` once the creature at bench index `index` of
/// the participant at `seat` has spent one use of the move in slot
/// `move_index`, whether or not it stands in a slot.
pub open spec fn pp_spent(
    before: Seq<BattlePlayer>,
    after: Seq<BattlePlayer>,
    seat: int,
    index: int,
    move_index: int,
) -> bool {
    let party = before[seat].party;
    &&& changed_at(before, after, seat)
    &&& 0 <= index < party.pokemon@.len()
    &&& after[seat].party.active == party.active
    &&& after[seat].party.pokemon@.len() == party.pokemon@.len()
    &&& forall|i: int|
        0 <= i < party.pokemon@.len() && i != index
            ==> #[trigger] after[seat].party.pokemon@[i] == party.pokemon@[i]
    &&& spent(party.pokemon@[index], after[seat].party.pokemon@[index], move_index)
}

/// Whether `after` and `records` are what applying the outcomes `output`
/// of a move of `user` and then spending one use of the move gives, where
/// the creature that spends it is the one at bench index `index` of the
/// participant at `seat`.
pub open spec fn move_applied_by(
    before: Seq<BattlePlayer>,
    after: Seq<BattlePlayer>,
    type_: BattleType,
    user: PokemonIdentifier,
    seat: int,
    index: int,
    move_index: int,
    output: Seq<Indexed<MoveResult>>,
    records: Seq<Indexed<ClientMoveAction>>,
) -> bool {
    exists|done: Seq<BattlePlayer>|
        {
            &&& #[trigger] pp_spent(done, after, seat, index, move_index)
            &&& results_applied(before, done, type_, user, output, records)
        }
}

/// Whether `after` and `records` are what resolving a move of `user` with
/// the outcomes `output` gives: the outcomes are applied in order, then
/// the creature that `user` addressed before they were applied spends one
/// use of the move, also where an outcome has made it faint and leave its
/// slot. Where `user` addressed no creature, no use is spent.
pub open spec fn move_applied(
    before: Seq<BattlePlayer>,
    after: Seq<BattlePlayer>,
    type_: BattleType,
    user: PokemonIdentifier,
    move_index: int,
    output: Seq<Indexed<MoveResult>>,
    records: Seq<Indexed<ClientMoveAction>>,
) -> bool {
    match place_of(before, user) {
        None => results_applied(before, after, type_, user, output, records),
        Some((seat, index)) => move_applied_by(
            before,
            after,
            type_,
            user,
            seat,
            index,
            move_index,
            output,
            records,
        ),
    }
}

/// Whether the switch that `user` asks for can be made: its participant
/// is there, the active slot exists, and the creature at bench index `new`
/// can enter.
pub open spec fn can_switch(
    players: Seq<BattlePlayer>,
    user: PokemonIdentifier,
    new: usize,
) -> bool {
    seat_of(players, user.0) matches Some(seat) && players[seat].party.can_switch(
        user.1 as int,
        new,
    )
}

/// Whether `after` is `before` once the creature at bench index `new` was
/// brought into the active slot that `user` names. Nothing changes where
/// the switch cannot be made.
pub open spec fn switched(
    before: Seq<BattlePlayer>,
    after: Seq<BattlePlayer>,
    user: PokemonIdentifier,
    new: usize,
) -> bool {
    if can_switch(before, user, new) {
        let seat = seat_of(before, user.0)->0;
        let party = before[seat].party;
        &&& changed_at(before, after, seat)
        &&& after[seat].party.active@ == party.active@.update(
            user.1 as int,
            Some(ActivePokemon { index: new, queued_move: None }),
        )
        &&& after[seat].party.pokemon@ == party.pokemon@.update(
            new as int,
            BattlePokemon { known: true, ..party.pokemon@[new as int] },
        )
    } else {
        after == before
    }
}

/// What the other participants are shown of a creature that a switch
/// brings in: the creature, if they had not seen it.
pub open spec fn switch_reveals(
    players: Seq<BattlePlayer>,
    user: PokemonIdentifier,
    new: usize,
) -> Option<
    RemotePokemon,
> {
    if can_switch(players, user, new) {
        let creature = players[seat_of(players, user.0)->0].party.pokemon@[new as int];
        if creature.known {
            None
        } else {
            Some(creature.remote())
        }
    } else {
        None
    }
}

/// Whether an item with the actions `actions` can be used by `user` on the
/// active slot `slot` of its own party: the participant is there and the
/// slot holds a creature.
pub open spec fn can_treat(
    players: Seq<BattlePlayer>,
    user: PokemonIdentifier,
    slot: usize,
) -> bool {
    place_of(players, PokemonIdentifier(user.0, slot)) is Some
}

/// Whether `after` is `before` once `actions` were applied to the creature
/// in the active slot `slot` of the party of `user`. Nothing changes where
/// there is no such creature.
pub open spec fn treated(
    before: Seq<BattlePlayer>,
    after: Seq<BattlePlayer>,
    user: PokemonIdentifier,
    slot: usize,
    actions: Seq<ItemAction>,
) -> bool {
    match place_of(before, PokemonIdentifier(user.0, slot)) {
        None => after == before,
        Some((seat, index)) => {
            let party = before[seat].party;
            &&& changed_at(before, after, seat)
            &&& after[seat].party.active == party.active
            &&& after[seat].party.pokemon@ == party.pokemon@.update(
                index,
                party.pokemon@[index].after_items(actions),
            )
        },
    }
}

/// Whether `user` can catch the creature that `target` addresses: the
/// battle is against a wild creature, the two belong to different
/// participants, both are there, the target's slot holds a creature, and
/// the user's bench can take one more.
pub open spec fn can_catch(
    players: Seq<BattlePlayer>,
    type_: BattleType,
    user: PokemonIdentifier,
    target: PokemonIdentifier,
) -> bool {
    &&& type_ == BattleType::Wild
    &&& user.0 != target.0
    &&& place_of(players, target) is Some
    &&& seat_of(players, user.0) matches Some(seat) && players[seat].party.pokemon@.len()
        < usize::MAX
}

/// Whether `after` is `before` once `user` has caught the creature that
/// `target` addresses: the creature leaves its slot and its bench, where
/// the bench indices in the other slots are brought up to date, and joins
/// the bench of the user's party behind the creatures that are there.
/// Nothing changes where it cannot be caught.
pub open spec fn caught(
    before: Seq<BattlePlayer>,
    after: Seq<BattlePlayer>,
    type_: BattleType,
    user: PokemonIdentifier,
    target: PokemonIdentifier,
) -> bool {
    if can_catch(before, type_, user, target) {
        let (from, index) = place_of(before, target)->0;
        let to = seat_of(before, user.0)->0;
        let creature = before[from].party.pokemon@[index];
        &&& after.len() == before.len()
        &&& forall|k: int|
            0 <= k < before.len() && k != from && k != to ==> #[trigger] after[k] == before[k]
        &&& changed_at(before, before.update(from, after[from]), from)
        &&& changed_at(before, before.update(to, after[to]), to)
        &&& after[from].party.active@ == slots_without(
            before[from].party.active@,
            target.1 as int,
            index,
        )
        &&& after[from].party.pokemon@ == before[from].party.pokemon@.remove(index)
        &&& after[to].party.active == before[to].party.active
        &&& after[to].party.pokemon@ == before[to].party.pokemon@.push(creature)
    } else {
        after == before
    }
}

/// Resolves a move of `user` whose outcomes are `output`: applies them,
/// spends one use of the move, and returns the entry for the clients' log.
pub fn apply_move(
    players: &mut Vec<BattlePlayer>,
    type_: BattleType,
    user: PokemonIdentifier,
    move_index: usize,
    used: MoveId,
    output: &Vec<Indexed<MoveResult>>,
) -> (entry: Indexed<ClientMove>)
    requires
        players_wf(old(players)@),
    ensures
        players_wf(final(players)@),
        entry.0 == user,
        entry.1 matches ClientMove::Move(id, cost, actions) && id == used && cost == MOVE_COST
            && move_applied(
            old(players)@,
            final(players)@,
            type_,
            user,
            move_index as int,
            output@,
            actions@,
        ),
{
    let place: Option<(usize, usize)> = match find_player(players, user.0) {
        Some(seat) => match players[seat].party.index(user.1) {
            Some(index) => Some((seat, index)),
            None => None,
        },
        None => None,
    };
    let actions = apply_results(players, type_, user, output);
    let ghost done = players@;
    match place {
        Some((seat, index)) => {
            players[seat].party.spend(index, move_index);
            assert(pp_spent(done, players@, seat as int, index as int, move_index as int));
        },
        None => {},
    }
    Indexed(user, ClientMove::Move(used, MOVE_COST, actions))
}

/// Brings the creature at bench index `new` into the active slot that
/// `user` names. Returns whether the switch was made and what the other
/// participants are to be shown.
pub fn apply_switch(players: &mut Vec<BattlePlayer>, user: PokemonIdentifier, new: usize) -> (done:
    (bool, Option<RemotePokemon>))
    requires
        players_wf(old(players)@),
    ensures
        players_wf(final(players)@),
        switched(old(players)@, final(players)@, user, new),
        done.0 == can_switch(old(players)@, user, new),
        done.1 == switch_reveals(old(players)@, user, new),
{
    match find_player(players, user.0) {
        Some(seat) => {
            let done = players[seat].party.switch_in(user.1, new);
            proof {
                if !done.0 {
                    assert(players@ =~= old(players)@);
                }
            }
            done
        },
        None => (false, None),
    }
}

/// Applies the actions of an item to the creature in the active slot
/// `slot` of the party of `user`. Returns whether there was such a
/// creature.
pub fn apply_item_actions(
    players: &mut Vec<BattlePlayer>,
    user: PokemonIdentifier,
    slot: usize,
    actions: &Vec<ItemAction>,
) -> (used: bool)
    requires
        players_wf(old(players)@),
    ensures
        players_wf(final(players)@),
        treated(old(players)@, final(players)@, user, slot, actions@),
        used == can_treat(old(players)@, user, slot),
{
    match find_player(players, user.0) {
        Some(seat) => {
            let used = players[seat].party.use_item_on(slot, actions);
            proof {
                if !used {
                    assert(players@ =~= old(players)@);
                }
            }
            used
        },
        None => false,
    }
}

/// Lets `user` catch the creature that `target` addresses: the creature
/// moves from its party to the user's. Returns a duplicate of the
/// creature, for the message that tells the user.
pub fn apply_catch(
    players: &mut Vec<BattlePlayer>,
    type_: BattleType,
    user: PokemonIdentifier,
    target: PokemonIdentifier,
) -> (captive: Option<BattlePokemon>)
    requires
        players_wf(old(players)@),
    ensures
        players_wf(final(players)@),
        caught(old(players)@, final(players)@, type_, user, target),
        match captive {
            Some(copy) => can_catch(old(players)@, type_, user, target) && ({
                let (from, index) = place_of(old(players)@, target)->0;
                duplicate_of(old(players)@[from].party.pokemon@[index], copy)
            }),
            None => !can_catch(old(players)@, type_, user, target),
        },
{
    let wild: bool = match type_ {
        BattleType::Wild => true,
        _ => false,
    };
    if !wild || user.0 == target.0 {
        return None;
    }
    let to: usize = match find_player(players, user.0) {
        Some(to) => to,
        None => {
            return None;
        },
    };
    if players[to].party.pokemon.len() == usize::MAX {
        return None;
    }
    let from: usize = match find_player(players, target.0) {
        Some(from) => from,
        None => {
            return None;
        },
    };
    let captive = players[from].party.capture(target.1);
    match captive {
        None => {
            assert(players@ =~= old(players)@);
            None
        },
        Some(creature) => {
            let copy = creature.duplicate();
            players[to].party.adopt(creature);
            Some(copy)
        },
    }
}

/// Whether the creature that `user` addresses flinches.
pub open spec fn flinching(players: Seq<BattlePlayer>, user: PokemonIdentifier) -> bool {
    place_of(players, user) matches Some((seat, index))
        && players[seat].party.pokemon@[index].flinch
}

/// Whether `after` is `before` with the flinch of the creature that `user`
/// addresses cleared. Nothing changes where `user` addresses no creature.
pub open spec fn flinch_taken(
    before: Seq<BattlePlayer>,
    after: Seq<BattlePlayer>,
    user: PokemonIdentifier,
) -> bool {
    match place_of(before, user) {
        None => after == before,
        Some((seat, index)) => {
            let party = before[seat].party;
            &&& changed_at(before, after, seat)
            &&& after[seat].party.active == party.active
            &&& after[seat].party.pokemon@ == party.pokemon@.update(
                index,
                BattlePokemon { flinch: false, ..party.pokemon@[index] },
            )
        },
    }
}

/// Whether `after` is `before` with the flinch of every creature cleared.
pub open spec fn flinches_cleared(before: Seq<BattlePlayer>, after: Seq<BattlePlayer>) -> bool {
    &&& after.len() == before.len()
    &&& forall|k: int|
        0 <= k < before.len() ==> {
            &&& (#[trigger] after[k]).settings == before[k].settings
            &&& after[k].inbox == before[k].inbox
            &&& after[k].waiting == before[k].waiting
            &&& after[k].deactivated == before[k].deactivated
            &&& after[k].party.id == before[k].party.id
            &&& after[k].party.active == before[k].party.active
            &&& after[k].party.pokemon@.len() == before[k].party.pokemon@.len()
            &&& forall|i: int|
                0 <= i < before[k].party.pokemon@.len() ==> #[trigger] after[k].party.pokemon@[i]
                    == (BattlePokemon { flinch: false, ..before[k].party.pokemon@[i] })
        }
}

/// Clears the flinch of the creature that `user` addresses and returns
/// whether it flinched: a creature that flinched loses the action that
/// comes up for it.
pub fn take_flinch(players: &mut Vec<BattlePlayer>, user: PokemonIdentifier) -> (flinched: bool)
    requires
        players_wf(old(players)@),
    ensures
        players_wf(final(players)@),
        flinch_taken(old(players)@, final(players)@, user),
        flinched == flinching(old(players)@, user),
        !flinched ==> final(players)@ == old(players)@,
{
    match find_player(players, user.0) {
        Some(seat) => {
            let flinched = players[seat].party.take_flinch(user.1);
            proof {
                if !flinched {
                    assert(players@ =~= old(players)@);
                }
            }
            flinched
        },
        None => false,
    }
}

/// Clears the flinch of every creature: a flinch does not last beyond the
/// round in which it was caused.
pub fn clear_flinches(players: &mut Vec<BattlePlayer>)
    requires
        players_wf(old(players)@),
    ensures
        players_wf(final(players)@),
        flinches_cleared(old(players)@, final(players)@),
{
    let mut seat: usize = 0;
    while seat < players.len()
        invariant
            seat <= players.len(),
            players_wf(players@),
            players@.len() == old(players)@.len(),
            forall|k: int|
                0 <= k < seat ==> {
                    &&& (#[trigger] players@[k]).settings == old(players)@[k].settings
                    &&& players@[k].inbox == old(players)@[k].inbox
                    &&& players@[k].waiting == old(players)@[k].waiting
                    &&& players@[k].deactivated == old(players)@[k].deactivated
                    &&& players@[k].party.id == old(players)@[k].party.id
                    &&& players@[k].party.active == old(players)@[k].party.active
                    &&& players@[k].party.pokemon@.len() == old(players)@[k].party.pokemon@.len()
                    &&& forall|i: int|
                        0 <= i < old(players)@[k].party.pokemon@.len()
                            ==> #[trigger] players@[k].party.pokemon@[i] == (BattlePokemon {
                            flinch: false,
                            ..old(players)@[k].party.pokemon@[i]
                        })
                },
            forall|k: int| seat <= k < players@.len() ==> #[trigger] players@[k]
                == old(players)@[k],
        decreases players.len() - seat,
    {
        players[seat].party.clear_flinches();
        seat += 1;
    }
}

/// A creature without health stands in no active slot.
pub proof fn lemma_fainted_is_not_active(players: Seq<BattlePlayer>, seat: int, index: usize)
    requires
        players_wf(players),
        0 <= seat < players.len(),
        index < players[seat].party.pokemon@.len(),
        players[seat].party.pokemon@[index as int].is_fainted(),
    ensures
        !players[seat].party.is_active(index),
{
    let party = players[seat].party;
}

/// An outcome that leaves its target without health empties the target's
/// slot at once: from then on the identifier addresses no creature.
pub proof fn lemma_fainted_leaves_at_once(
    before: Seq<BattlePlayer>,
    after: Seq<BattlePlayer>,
    target: PokemonIdentifier,
    result: MoveResult,
)
    requires
        players_wf(before),
        struck(before, after, target, result),
        place_of(before, target) is Some,
        ({
            let (seat, index) = place_of(before, target)->0;
            BattleParty::faints(before[seat].party.pokemon@[index].after(result), result)
        }),
    ensures
        place_of(after, target) is None,
{
    let (seat, index) = place_of(before, target)->0;
}

/// An identifier that addresses no creature is the subject of nothing: an
/// outcome for it changes nothing, shows nothing and sets no experience
/// free, and it neither flinches nor gains experience.
pub proof fn lemma_empty_slot_is_no_subject(
    before: Seq<BattlePlayer>,
    after: Seq<BattlePlayer>,
    type_: BattleType,
    at: PokemonIdentifier,
    result: MoveResult,
)
    requires
        place_of(before, at) is None,
    ensures
        struck(before, after, at, result) ==> after == before,
        strike_record(before, at, result) is None,
        strike_experience(before, type_, at, result) is None,
        !flinching(before, at),
        forall|experience: Experience| #[trigger]
            rewarded(before, after, at, experience) ==> after == before,
{
}

/// An outcome changes no creature but the one in the slot that its target
/// names: a creature that stands in no slot, as one that fainted does, is
/// left as it is.
pub proof fn lemma_outcomes_spare_the_bench(
    before: Seq<BattlePlayer>,
    after: Seq<BattlePlayer>,
    target: PokemonIdentifier,
    result: MoveResult,
    seat: int,
    index: usize,
)
    requires
        players_wf(before),
        struck(before, after, target, result),
        0 <= seat < before.len(),
        index < before[seat].party.pokemon@.len(),
        !before[seat].party.is_active(index),
    ensures
        after[seat].party.pokemon@[index as int] == before[seat].party.pokemon@[index as int],
{
}

} // verus!
