//! The battle: the state machine that gates its phases on the readiness of
//! the participants, schedules a round and resolves it.
//!
//! The battle does no I/O. What participants send is put into their
//! inboxes; what the battle sends is queued in its outbox, in order, for
//! the host to deliver.

use crate::applier::{
    apply_catch, apply_item_actions, apply_move, apply_switch, can_catch, can_switch, can_treat,
    caught, changed_at, clear_flinches, flinch_taken, flinches_cleared, flinching, move_applied,
    place_of, switch_reveals, switched, take_flinch, treated, MOVE_COST,
};
use crate::data::BattleData;
use crate::engine::MoveEngine;
use crate::item::{ItemData, ItemUsageKind};
use crate::message::{
    is_view_of, ClientMessage, ClientPlayerData, EndMessage, Outbound, Recipient, ServerMessage,
};
use crate::moves::{BattleMove, ClientMove, ItemId, MoveData, MoveId, MoveResult};
use crate::party::ActivePokemon;
use crate::player::{find_player, initialised, players_wf, seat_of, BattlePlayer, PlayerData};
use crate::pokemon::{duplicate_of, learned, BattlePokemon, Indexed, PlayerId, PokemonIdentifier};
use crate::queue::{intents_taken, is_schedule, move_queue};
use rand::rngs::StdRng;
use std::collections::HashMap;
use vstd::prelude::*;

verus! {

/// The phase of a battle.
#[derive(Clone, Copy, Debug, PartialEq, Eq, Structural)]
pub enum BattleState {
    /// The battle has not begun.
    Start,
    /// The participants are about to be asked for their intents.
    StartSelecting,
    /// The battle waits until every party is ready to move.
    WaitSelecting,
    /// The round is about to be resolved.
    StartMoving,
    /// The battle waits until every participant has seen the round.
    WaitMoving,
    /// The battle is over.
    End,
}

impl Default for BattleState {
    fn default() -> (state: BattleState)
        ensures
            state == BattleState::Start,
    {
        BattleState::Start
    }
}

/// A battle as contracts speak of it.
pub struct BattleView {
    pub state: BattleState,
    pub data: BattleData,
    /// The winner that was recorded when the battle ended, if one was.
    pub winner: Option<PlayerId>,
    /// The participants, in the order in which they were given.
    pub players: Seq<BattlePlayer>,
    /// The messages that wait to be sent, oldest first.
    pub outbox: Seq<Outbound>,
}

/// A battle.
pub struct Battle {
    state: BattleState,
    data: BattleData,
    winner: Option<PlayerId>,
    players: Vec<BattlePlayer>,
    outbox: Vec<Outbound>,
}

impl View for Battle {
    type V = BattleView;

    closed spec fn view(&self) -> BattleView {
        BattleView {
            state: self.state,
            data: self.data,
            winner: self.winner,
            players: self.players@,
            outbox: self.outbox@,
        }
    }
}

/// Whether the participant at `seat` is the first that takes part.
pub open spec fn is_first_standing(players: Seq<BattlePlayer>, seat: int) -> bool {
    &&& 0 <= seat < players.len()
    &&& !players[seat].deactivated
    &&& forall|k: int| 0 <= k < seat ==> (#[trigger] players[k]).deactivated
}

/// How many of the participants below `upto` take part.
pub open spec fn standing(players: Seq<BattlePlayer>, upto: int) -> nat
    decreases upto,
{
    if upto <= 0 {
        0
    } else {
        standing(players, upto - 1) + (if players[upto - 1].deactivated {
            0nat
        } else {
            1nat
        })
    }
}

/// The messages that tell the participants below `upto` that take part how
/// the battle ended: a win for `winner`, a loss for the others.
pub open spec fn end_notices(
    players: Seq<BattlePlayer>,
    winner: Option<PlayerId>,
    upto: int,
) -> Seq<
    Outbound,
>
    decreases upto,
{
    if upto <= 0 {
        Seq::empty()
    } else {
        let rest = end_notices(players, winner, upto - 1);
        let player = players[upto - 1];
        if player.deactivated {
            rest
        } else {
            rest.push(
                Outbound {
                    to: Recipient::Player(player.party.id),
                    message: ServerMessage::End(
                        if winner == Some(player.party.id) {
                            EndMessage::Win
                        } else {
                            EndMessage::Lose
                        },
                    ),
                },
            )
        }
    }
}

/// Whether `sent` are the messages that tell the participants below `upto`
/// that take part that the battle begins: for each, in order, one to it
/// alone with its view of the battle.
pub open spec fn begin_sent(
    players: Seq<BattlePlayer>,
    data: BattleData,
    upto: int,
    sent: Seq<Outbound>,
) -> bool
    decreases upto,
{
    if upto <= 0 {
        sent.len() == 0
    } else if players[upto - 1].deactivated {
        begin_sent(players, data, upto - 1, sent)
    } else {
        &&& sent.len() > 0
        &&& begin_sent(players, data, upto - 1, sent.drop_last())
        &&& sent.last().to == Recipient::Player(players[upto - 1].party.id)
        &&& sent.last().message matches ServerMessage::Begin(view) && is_view_of(
            view,
            data,
            players,
            upto - 1,
        )
    }
}

/// Whether `after` is the participant `before` with the creatures in its
/// active slots marked as shown.
pub open spec fn revealed(before: BattlePlayer, after: BattlePlayer) -> bool {
    &&& after.settings == before.settings
    &&& after.inbox == before.inbox
    &&& after.waiting == before.waiting
    &&& after.deactivated == before.deactivated
    &&& after.party.id == before.party.id
    &&& after.party.active == before.party.active
    &&& after.party.pokemon@.len() == before.party.pokemon@.len()
    &&& forall|i: int|
        0 <= i < before.party.pokemon@.len() ==> #[trigger] after.party.pokemon@[i] == (
        BattlePokemon {
            known: before.party.pokemon@[i].known || before.party.is_active(i as usize),
            ..before.party.pokemon@[i]
        })
}

impl Battle {
    /// The invariant of a battle: the participants have distinct
    /// identifiers and every party keeps its invariant.
    pub closed spec fn wf(&self) -> bool {
        players_wf(self.players@)
    }

    /// What the invariant of a battle says of its participants: their
    /// identifiers are distinct, and in every party each creature's health
    /// is at most its full health, each stage is within its bounds, an
    /// occupied slot holds an available creature of the bench, and no
    /// creature stands in two slots.
    pub proof fn lemma_invariant(&self)
        requires
            self.wf(),
        ensures
            players_wf(self@.players),
    {
    }

    /// A battle between the participants that the data describe, which has
    /// not begun.
    pub fn new(data: BattleData, players: Vec<PlayerData>) -> (battle: Battle)
        requires
            forall|j: int, k: int|
                0 <= j < k < players@.len() ==> (#[trigger] players@[j]).id != (
                #[trigger] players@[k]).id,
            forall|k: int, i: int|
                0 <= k < players@.len() && 0 <= i < players@[k].party@.len() ==> (
                #[trigger] players@[k].party@[i]).wf(),
        ensures
            battle.wf(),
            battle@.state == BattleState::Start,
            battle@.data == data,
            battle@.winner is None,
            battle@.outbox.len() == 0,
            battle@.players.len() == players@.len(),
            forall|k: int|
                0 <= k < players@.len() ==> initialised(players@[k], #[trigger] battle@.players[k]),
    {
        let mut rest = players;
        let mut seats: Vec<BattlePlayer> = Vec::new();
        while rest.len() > 0
            invariant
                seats@.len() + rest@.len() == players@.len(),
                rest@ == players@.skip(seats@.len() as int),
                forall|k: int|
                    0 <= k < seats@.len() ==> initialised(players@[k], #[trigger] seats@[k])
                        && seats@[k].party.wf(),
                forall|k: int, i: int|
                    0 <= k < players@.len() && 0 <= i < players@[k].party@.len() ==> (
                    #[trigger] players@[k].party@[i]).wf(),
            decreases rest@.len(),
        {
            let next = rest.remove(0);
            seats.push(next.init());
        }
        Battle {
            state: BattleState::default(),
            data,
            winner: None,
            players: seats,
            outbox: Vec::new(),
        }
    }

    /// A battle between the given participants, as they are, which has not
    /// begun.
    pub fn with_players(data: BattleData, players: Vec<BattlePlayer>) -> (battle: Battle)
        requires
            players_wf(players@),
        ensures
            battle.wf(),
            battle@ == (BattleView {
                state: BattleState::Start,
                data,
                winner: None,
                players: players@,
                outbox: Seq::empty(),
            }),
    {
        Battle {
            state: BattleState::default(),
            data,
            winner: None,
            players,
            outbox: Vec::new(),
        }
    }

    /// Whether the battle is over.
    pub fn finished(&self) -> (finished: bool)
        ensures
            finished == (self@.state == BattleState::End),
    {
        match self.state {
            BattleState::End => true,
            _ => false,
        }
    }

    /// The facts of the battle.
    pub fn data(&self) -> (data: &BattleData)
        ensures
            *data == self@.data,
    {
        &self.data
    }

    /// The phase of the battle.
    pub fn state(&self) -> (state: BattleState)
        ensures
            state == self@.state,
    {
        self.state
    }

    /// The participants.
    pub fn players(&self) -> (players: &Vec<BattlePlayer>)
        ensures
            players@ == self@.players,
    {
        &self.players
    }

    /// The messages that wait to be sent.
    pub fn outbox(&self) -> (outbox: &Vec<Outbound>)
        ensures
            outbox@ == self@.outbox,
    {
        &self.outbox
    }

    /// Hands over the messages that wait to be sent, leaving none.
    pub fn take_outbox(&mut self) -> (outbox: Vec<Outbound>)
        ensures
            outbox@ == old(self)@.outbox,
            final(self)@ == (BattleView { outbox: Seq::empty(), ..old(self)@ }),
            old(self).wf() ==> final(self).wf(),
    {
        let mut outbox: Vec<Outbound> = Vec::new();
        outbox.append(&mut self.outbox);
        outbox
    }

    /// Puts a message from the participant `id` into its inbox. Returns
    /// whether there is such a participant; nothing changes where there is
    /// none.
    pub fn deliver(&mut self, id: PlayerId, message: ClientMessage) -> (delivered: bool)
        requires
            old(self).wf(),
        ensures
            final(self).wf(),
            delivered == (seat_of(old(self)@.players, id) is Some),
            final(self)@.state == old(self)@.state,
            final(self)@.data == old(self)@.data,
            final(self)@.winner == old(self)@.winner,
            final(self)@.outbox == old(self)@.outbox,
            match seat_of(old(self)@.players, id) {
                Some(seat) => {
                    &&& final(self)@.players.len() == old(self)@.players.len()
                    &&& forall|k: int|
                        0 <= k < old(self)@.players.len() && k != seat
                            ==> #[trigger] final(self)@.players[k] == old(self)@.players[k]
                    &&& final(self)@.players[seat] == (BattlePlayer {
                        inbox: final(self)@.players[seat].inbox,
                        ..old(self)@.players[seat]
                    })
                    &&& final(self)@.players[seat].inbox@ == old(self)@.players[seat].inbox@.push(
                        message,
                    )
                },
                None => final(self)@.players == old(self)@.players,
            },
    {
        match find_player(&self.players, id) {
            Some(seat) => {
                self.players[seat].deliver(message);
                true
            },
            None => false,
        }
    }

    /// The winner of a battle that is over: the one that was recorded when
    /// it ended. A battle that is not over has none.
    pub fn winner(&self) -> (winner: Option<PlayerId>)
        ensures
            winner == (if self@.state == BattleState::End {
                self@.winner
            } else {
                None
            }),
    {
        match self.state {
            BattleState::End => self.winner,
            _ => None,
        }
    }

    /// Takes the participant `id` out of the battle and tells it how the
    /// battle ended for it. Nothing happens where there is no such
    /// participant or it has left already.
    pub fn remove_player(&mut self, id: PlayerId, kind: EndMessage)
        requires
            old(self).wf(),
        ensures
            final(self).wf(),
            final(self)@.state == old(self)@.state,
            final(self)@.data == old(self)@.data,
            final(self)@.winner == old(self)@.winner,
            match seat_of(old(self)@.players, id) {
                Some(seat) if !old(self)@.players[seat].deactivated => {
                    &&& final(self)@.players == old(self)@.players.update(
                        seat,
                        BattlePlayer { deactivated: true, ..old(self)@.players[seat] },
                    )
                    &&& final(self)@.outbox == old(self)@.outbox.push(
                        Outbound { to: Recipient::Player(id), message: ServerMessage::End(kind) },
                    )
                },
                _ => final(self)@.players == old(self)@.players && final(self)@.outbox
                    == old(self)@.outbox,
            },
    {
        match find_player(&self.players, id) {
            Some(seat) => {
                if !self.players[seat].deactivated {
                    self.players[seat].deactivated = true;
                    self.outbox.push(
                        Outbound { to: Recipient::Player(id), message: ServerMessage::End(kind) },
                    );
                }
            },
            None => {},
        }
    }

    /// Ends the battle: records `winner` as the winner and tells every
    /// participant that takes part whether it has won, which `winner` has,
    /// or lost.
    pub fn end(&mut self, winner: Option<PlayerId>)
        ensures
            final(self)@ == (BattleView {
                state: BattleState::End,
                winner,
                outbox: old(self)@.outbox + end_notices(
                    old(self)@.players,
                    winner,
                    old(self)@.players.len() as int,
                ),
                ..old(self)@
            }),
            old(self).wf() ==> final(self).wf(),
    {
        self.state = BattleState::End;
        self.winner = winner;
        let mut seat: usize = 0;
        while seat < self.players.len()
            invariant
                seat <= self.players.len(),
                self.state == BattleState::End,
                self.data == old(self).data,
                self.winner == winner,
                self.players == old(self).players,
                self.outbox@ == old(self).outbox@ + end_notices(
                    old(self).players@,
                    winner,
                    seat as int,
                ),
            decreases self.players.len() - seat,
        {
            if !self.players[seat].deactivated {
                let id: PlayerId = self.players[seat].party.id;
                let won: bool = match winner {
                    Some(winner) => winner == id,
                    None => false,
                };
                let result = if won {
                    EndMessage::Win
                } else {
                    EndMessage::Lose
                };
                self.outbox.push(
                    Outbound { to: Recipient::Player(id), message: ServerMessage::End(result) },
                );
            }
            seat += 1;
        }
    }

    /// Begins the battle: the creatures in the active slots are marked as
    /// shown, every participant that takes part is sent its view of the
    /// battle, and the participants are about to be asked for their
    /// intents.
    pub fn begin(&mut self)
        requires
            old(self).wf(),
        ensures
            final(self).wf(),
            final(self)@.state == BattleState::StartSelecting,
            final(self)@.data == old(self)@.data,
            final(self)@.winner == old(self)@.winner,
            final(self)@.players.len() == old(self)@.players.len(),
            forall|k: int|
                0 <= k < old(self)@.players.len() ==> revealed(
                    old(self)@.players[k],
                    #[trigger] final(self)@.players[k],
                ),
            final(self)@.outbox.len() >= old(self)@.outbox.len(),
            final(self)@.outbox.take(old(self)@.outbox.len() as int) == old(self)@.outbox,
            begin_sent(
                final(self)@.players,
                final(self)@.data,
                final(self)@.players.len() as int,
                final(self)@.outbox.skip(old(self)@.outbox.len() as int),
            ),
    {
        let mut seat: usize = 0;
        while seat < self.players.len()
            invariant
                seat <= self.players.len(),
                players_wf(self.players@),
                self.state == old(self).state,
                self.data == old(self).data,
                self.winner == old(self).winner,
                self.outbox == old(self).outbox,
                self.players@.len() == old(self).players@.len(),
                forall|k: int|
                    0 <= k < seat ==> revealed(old(self).players@[k], #[trigger] self.players@[k]),
                forall|k: int|
                    seat <= k < self.players@.len() ==> #[trigger] self.players@[k]
                        == old(self).players@[k],
            decreases self.players.len() - seat,
        {
            self.players[seat].party.reveal_active();
            seat += 1;
        }
        let ghost start = self.outbox@.len() as int;
        let mut to: usize = 0;
        while to < self.players.len()
            invariant
                to <= self.players.len(),
                players_wf(self.players@),
                self.state == old(self).state,
                self.data == old(self).data,
                self.winner == old(self).winner,
                self.players@.len() == old(self).players@.len(),
                forall|k: int|
                    0 <= k < self.players@.len() ==> revealed(
                        old(self).players@[k],
                        #[trigger] self.players@[k],
                    ),
                start == old(self).outbox@.len(),
                self.outbox@.len() >= start,
                self.outbox@.take(start) == old(self).outbox@,
                begin_sent(self.players@, self.data, to as int, self.outbox@.skip(start)),
            decreases self.players.len() - to,
        {
            if !self.players[to].deactivated {
                let ghost sent = self.outbox@;
                let view = ClientPlayerData::new(self.data, &self.players, to);
                self.outbox.push(
                    Outbound {
                        to: Recipient::Player(self.players[to].party.id),
                        message: ServerMessage::Begin(view),
                    },
                );
                proof {
                    assert(self.outbox@.skip(start).drop_last() =~= sent.skip(start));
                }
            }
            to += 1;
        }
        self.state = BattleState::StartSelecting;
    }
}

/// The identifier of the first participant that takes part.
fn first_standing(players: &Vec<BattlePlayer>) -> (first: Option<PlayerId>)
    ensures
        match first {
            Some(id) => exists|seat: int|
                is_first_standing(players@, seat) && id == (#[trigger] players@[seat]).party.id,
            None => forall|seat: int|
                0 <= seat < players@.len() ==> (#[trigger] players@[seat]).deactivated,
        },
{
    let mut seat: usize = 0;
    while seat < players.len()
        invariant
            seat <= players.len(),
            forall|k: int| 0 <= k < seat ==> (#[trigger] players@[k]).deactivated,
        decreases players.len() - seat,
    {
        if !players[seat].deactivated {
            return Some(players[seat].party.id);
        }
        seat += 1;
    }
    None
}

/// The outcomes that the engine gave for an action, if it was asked and
/// did not fail.
pub type Turn = Option<Seq<Indexed<MoveResult>>>;

/// The definitions of the items that can be used in a battle.
pub type Items = HashMap<ItemId, ItemData>;

/// The one entry `entry` of the clients' log, or none.
pub open spec fn logged(entry: Option<Indexed<ClientMove>>) -> Seq<Indexed<ClientMove>> {
    match entry {
        Some(entry) => seq![entry],
        None => Seq::empty(),
    }
}

/// The move that the creature that `user` addresses uses for a queued
/// move: the one in slot `move_index` of its move set, if there is one and
/// a use of it is left.
pub open spec fn move_to_use(
    players: Seq<BattlePlayer>,
    user: PokemonIdentifier,
    move_index: int,
) -> Option<
    MoveData,
> {
    match place_of(players, user) {
        Some((seat, index)) => players[seat].party.pokemon@[index].usable_move(move_index),
        None => None,
    }
}

/// Whether `after` and `entries` are what resolving a queued move gives.
///
/// A creature that flinches loses its flinch and the move. Else, if the
/// creature is in its slot with a usable move and the engine gave outcomes,
/// the outcomes are applied, a use of the move is spent, and one entry
/// records the move with what the outcomes did. In every other case
/// nothing changes and nothing is recorded.
pub open spec fn move_resolved(
    before: BattleView,
    after: BattleView,
    user: PokemonIdentifier,
    move_index: int,
    turn: Turn,
    entries: Seq<Indexed<ClientMove>>,
) -> bool {
    &&& after.state == before.state
    &&& after.data == before.data
    &&& after.winner == before.winner
    &&& after.outbox == before.outbox
    &&& if flinching(before.players, user) {
        &&& flinch_taken(before.players, after.players, user)
        &&& entries.len() == 0
    } else {
        match (move_to_use(before.players, user, move_index), turn) {
            (Some(used), Some(output)) => {
                &&& entries.len() == 1
                &&& entries[0].0 == user
                &&& entries[0].1 matches ClientMove::Move(id, cost, actions) && id == used.id
                    && cost == MOVE_COST && move_applied(
                    before.players,
                    after.players,
                    before.data.type_,
                    user,
                    move_index,
                    output,
                    actions@,
                )
            },
            _ => after.players == before.players && entries.len() == 0,
        }
    }
}

/// Whether `after` and `entries` are what resolving a queued switch gives:
/// if the switch can be made, the creature comes in, the other
/// participants are shown it if they had not seen it, and one entry
/// records the switch. Else nothing changes and nothing is recorded.
pub open spec fn switch_resolved(
    before: BattleView,
    after: BattleView,
    user: PokemonIdentifier,
    new: usize,
    entries: Seq<Indexed<ClientMove>>,
) -> bool {
    &&& after.state == before.state
    &&& after.data == before.data
    &&& after.winner == before.winner
    &&& switched(before.players, after.players, user, new)
    &&& after.outbox == (match switch_reveals(before.players, user, new) {
        Some(unknown) => before.outbox.push(
            Outbound {
                to: Recipient::Others(user.0),
                message: ServerMessage::AddUnknown(PokemonIdentifier(user.0, new), unknown),
            },
        ),
        None => before.outbox,
    })
    &&& entries == (if can_switch(before.players, user, new) {
        seq![Indexed(user, ClientMove::Switch(new))]
    } else {
        Seq::empty()
    })
}

/// Whether `after` and `entries` are what resolving a queued use of the
/// item `id` on `target` gives.
///
/// Nothing changes and nothing is recorded where the item is not defined
/// or the participant of `user` is not there. An item with actions applies
/// them to the creature in the slot of the user's party that `target`
/// names, if there is one. A scripted item does nothing. An item that
/// catches moves the creature that `target` addresses, if it can be
/// caught, into the user's party, and the user is sent a duplicate of it.
/// An inert item is used without effect. One entry records the item where
/// it was used.
pub open spec fn item_resolved(
    before: BattleView,
    after: BattleView,
    items: Map<ItemId, ItemData>,
    user: PokemonIdentifier,
    id: ItemId,
    target: PokemonIdentifier,
    entries: Seq<Indexed<ClientMove>>,
) -> bool {
    let used = seq![Indexed(user, ClientMove::UseItem(items[id].id, target.1))];
    let unused = Seq::<Indexed<ClientMove>>::empty();
    &&& after.state == before.state
    &&& after.data == before.data
    &&& after.winner == before.winner
    &&& if !items.contains_key(id) || seat_of(before.players, user.0) is None {
        &&& after.players == before.players
        &&& after.outbox == before.outbox
        &&& entries == unused
    } else {
        match items[id].usage {
            ItemUsageKind::Actions(actions) => {
                &&& treated(before.players, after.players, user, target.1, actions@)
                &&& after.outbox == before.outbox
                &&& entries == (if can_treat(before.players, user, target.1) {
                    used
                } else {
                    unused
                })
            },
            ItemUsageKind::Script => {
                &&& after.players == before.players
                &&& after.outbox == before.outbox
                &&& entries == unused
            },
            ItemUsageKind::Pokeball => {
                &&& caught(before.players, after.players, before.data.type_, user, target)
                &&& if can_catch(before.players, before.data.type_, user, target) {
                    let (from, index) = place_of(before.players, target)->0;
                    &&& after.outbox.len() == before.outbox.len() + 1
                    &&& after.outbox.drop_last() == before.outbox
                    &&& after.outbox.last().to == Recipient::Player(user.0)
                    &&& after.outbox.last().message matches ServerMessage::Catch(captive)
                        && duplicate_of(before.players[from].party.pokemon@[index], captive)
                    &&& entries == used
                } else {
                    after.outbox == before.outbox && entries == unused
                }
            },
            ItemUsageKind::Inert => {
                &&& after.players == before.players
                &&& after.outbox == before.outbox
                &&& entries == used
            },
        }
    }
}

/// Whether `after` and `entries` are what resolving one queued action
/// gives, where `turn` is what the engine gave for it.
pub open spec fn resolved(
    before: BattleView,
    after: BattleView,
    items: Map<ItemId, ItemData>,
    action: Indexed<BattleMove>,
    turn: Turn,
    entries: Seq<Indexed<ClientMove>>,
) -> bool {
    match action.1 {
        BattleMove::Move(move_index, _) => move_resolved(
            before,
            after,
            action.0,
            move_index as int,
            turn,
            entries,
        ),
        BattleMove::UseItem(id, target) => item_resolved(
            before,
            after,
            items,
            action.0,
            id,
            target,
            entries,
        ),
        BattleMove::Switch(new) => switch_resolved(before, after, action.0, new, entries),
    }
}

/// Whether `after` and `log` are what resolving the queued actions `queue`
/// in order gives, where `turns` holds what the engine gave for each.
pub open spec fn queue_resolved(
    before: BattleView,
    after: BattleView,
    items: Map<ItemId, ItemData>,
    queue: Seq<Indexed<BattleMove>>,
    turns: Seq<Turn>,
    log: Seq<Indexed<ClientMove>>,
) -> bool
    decreases queue.len(),
{
    if queue.len() == 0 {
        after == before && log.len() == 0 && turns.len() == 0
    } else {
        exists|mid: BattleView, n: int|
            {
                &&& 0 <= n <= log.len()
                &&& turns.len() == queue.len()
                &&& queue_resolved(
                    before,
                    mid,
                    items,
                    queue.drop_last(),
                    turns.drop_last(),
                    log.take(n),
                )
                &&& #[trigger] resolved(
                    mid,
                    after,
                    items,
                    queue.last(),
                    turns.last(),
                    log.skip(n),
                )
            }
    }
}

/// Actions resolved one after the other: what holds of all but the last,
/// and of the last after them, holds of all.
pub proof fn lemma_queue_extend(
    before: BattleView,
    mid: BattleView,
    after: BattleView,
    items: Map<ItemId, ItemData>,
    queue: Seq<Indexed<BattleMove>>,
    turns: Seq<Turn>,
    log: Seq<Indexed<ClientMove>>,
    n: int,
)
    requires
        queue.len() > 0,
        turns.len() == queue.len(),
        0 <= n <= log.len(),
        queue_resolved(before, mid, items, queue.drop_last(), turns.drop_last(), log.take(n)),
        resolved(mid, after, items, queue.last(), turns.last(), log.skip(n)),
    ensures
        queue_resolved(before, after, items, queue, turns, log),
{
}

/// Whether `after` is the battle `before` after a round in which the
/// engine gave `turns`: the queued actions were resolved in order into the
/// log, which left the battle as `done`, then every flinch was cleared.
pub open spec fn round_resolved_with(
    before: BattleView,
    after: BattleView,
    items: Map<ItemId, ItemData>,
    queue: Seq<Indexed<BattleMove>>,
    log: Seq<Indexed<ClientMove>>,
    turns: Seq<Turn>,
    done: BattleView,
) -> bool {
    &&& queue_resolved(before, done, items, queue, turns, log)
    &&& after.state == done.state
    &&& after.data == done.data
    &&& after.winner == done.winner
    &&& after.outbox == done.outbox
    &&& flinches_cleared(done.players, after.players)
}

/// Whether `after` is the battle `before` after a round: the queued
/// actions were resolved in order into the log, then every flinch was
/// cleared.
pub open spec fn round_resolved(
    before: BattleView,
    after: BattleView,
    items: Map<ItemId, ItemData>,
    queue: Seq<Indexed<BattleMove>>,
    log: Seq<Indexed<ClientMove>>,
) -> bool {
    exists|turns: Seq<Turn>, done: BattleView|
        round_resolved_with(before, after, items, queue, log, turns, done)
}

impl Battle {
    /// Resolves a queued move of the creature that `user` addresses.
    fn resolve_move<E: MoveEngine>(
        &mut self,
        random: &mut StdRng,
        engine: &E,
        user: PokemonIdentifier,
        move_index: usize,
        targeting: Option<PokemonIdentifier>,
    ) -> (done: (Option<Indexed<ClientMove>>, Ghost<Turn>))
        requires
            old(self).wf(),
        ensures
            final(self).wf(),
            move_resolved(
                old(self)@,
                final(self)@,
                user,
                move_index as int,
                done.1@,
                logged(done.0),
            ),
    {
        if take_flinch(&mut self.players, user) {
            return (None, Ghost(None));
        }
        let used: Option<MoveData> = match find_player(&self.players, user.0) {
            Some(seat) => self.players[seat].party.try_use(user.1, move_index),
            None => None,
        };
        match used {
            Some(used) => {
                match engine.execute(random, &used, user, targeting, &self.players) {
                    Ok(output) => {
                        let entry = apply_move(
                            &mut self.players,
                            self.data.type_,
                            user,
                            move_index,
                            used.id,
                            &output,
                        );
                        (Some(entry), Ghost(Some(output@)))
                    },
                    Err(_) => (None, Ghost(None)),
                }
            },
            None => (None, Ghost(None)),
        }
    }

    /// Resolves a queued switch of the active slot that `user` names to the
    /// creature at bench index `new`.
    fn resolve_switch(&mut self, user: PokemonIdentifier, new: usize) -> (entry: Option<
        Indexed<ClientMove>,
    >)
        requires
            old(self).wf(),
        ensures
            final(self).wf(),
            switch_resolved(old(self)@, final(self)@, user, new, logged(entry)),
    {
        let (done, unknown) = apply_switch(&mut self.players, user, new);
        match unknown {
            Some(unknown) => {
                self.outbox.push(
                    Outbound {
                        to: Recipient::Others(user.0),
                        message: ServerMessage::AddUnknown(PokemonIdentifier(user.0, new), unknown),
                    },
                );
            },
            None => {},
        }
        if done {
            let entry = Indexed(user, ClientMove::Switch(new));
            Some(entry)
        } else {
            None
        }
    }

    /// Resolves a queued use of the item `id` on `target`.
    fn resolve_item(
        &mut self,
        items: &Items,
        user: PokemonIdentifier,
        id: ItemId,
        target: PokemonIdentifier,
    ) -> (entry:
        Option<Indexed<ClientMove>>)
        requires
            old(self).wf(),
        ensures
            final(self).wf(),
            item_resolved(old(self)@, final(self)@, items@, user, id, target, logged(entry)),
    {
        let item: &ItemData = match items.get(&id) {
            Some(item) => item,
            None => {
                return None;
            },
        };
        if find_player(&self.players, user.0).is_none() {
            return None;
        }
        let used: bool = match &item.usage {
            ItemUsageKind::Actions(actions) => apply_item_actions(
                &mut self.players,
                user,
                target.1,
                actions,
            ),
            ItemUsageKind::Script => false,
            ItemUsageKind::Pokeball => {
                match apply_catch(&mut self.players, self.data.type_, user, target) {
                    Some(captive) => {
                        let ghost sent = self.outbox@;
                        self.outbox.push(
                            Outbound {
                                to: Recipient::Player(user.0),
                                message: ServerMessage::Catch(captive),
                            },
                        );
                        assert(self.outbox@.drop_last() =~= sent);
                        true
                    },
                    None => false,
                }
            },
            ItemUsageKind::Inert => true,
        };
        if used {
            let entry = Indexed(user, ClientMove::UseItem(item.id, target.1));
            Some(entry)
        } else {
            None
        }
    }

    /// Resolves the queued actions of a round in order, applies what they
    /// do to the parties and returns the log that the clients are shown.
    /// An action that cannot be resolved is dropped: it changes nothing and
    /// leaves no entry. When all are resolved, every flinch is cleared.
    pub fn client_queue<E: MoveEngine>(
        &mut self,
        random: &mut StdRng,
        engine: &E,
        items: &Items,
        queue: Vec<Indexed<BattleMove>>,
    ) -> (log: Vec<Indexed<ClientMove>>)
        requires
            old(self).wf(),
        ensures
            final(self).wf(),
            round_resolved(old(self)@, final(self)@, items@, queue@, log@),
    {
        let mut log: Vec<Indexed<ClientMove>> = Vec::new();
        let ghost mut turns: Seq<Turn> = Seq::empty();
        let mut i: usize = 0;
        while i < queue.len()
            invariant
                i <= queue.len(),
                self.wf(),
                    turns.len() == i,
                queue_resolved(old(self)@, self@, items@, queue@.take(i as int), turns, log@),
            decreases queue.len() - i,
        {
            let ghost mid = self@;
            let ghost shown = log@;
            let ghost asked = turns;
            let user: PokemonIdentifier = queue[i].0;
            let ghost turn: Turn = None;
            let entry = match queue[i].1 {
                BattleMove::Move(move_index, targeting) => {
                    let (entry, given) = self.resolve_move(
                        random,
                        engine,
                        user,
                        move_index,
                        targeting,
                    );
                    proof {
                        turn = given@;
                    }
                    entry
                },
                BattleMove::UseItem(id, target) => self.resolve_item(items, user, id, target),
                BattleMove::Switch(new) => self.resolve_switch(user, new),
            };
            let ghost added = logged(entry);
            match entry {
                Some(entry) => {
                    log.push(entry);
                },
                None => {},
            }
            proof {
                turns = turns.push(turn);
                let done = queue@.take(i + 1);
                assert(done.drop_last() =~= queue@.take(i as int));
                assert(turns.drop_last() =~= asked);
                assert(log@.take(shown.len() as int) =~= shown);
                assert(log@.skip(shown.len() as int) =~= added);
                lemma_queue_extend(
                    old(self)@,
                    mid,
                    self@,
                    items@,
                    done,
                    turns,
                    log@,
                    shown.len() as int,
                );
            }
            i += 1;
        }
        assert(queue@.take(queue.len() as int) =~= queue@);
        let ghost done = self@;
        clear_flinches(&mut self.players);
        assert(round_resolved_with(old(self)@, self@, items@, queue@, log@, turns, done));
        log
    }
}

/// Whether `after` is `before` once the participant at `seat` has queued
/// `intent` for its active slot `slot`. Nothing changes where the slot
/// holds no creature.
pub open spec fn intent_queued(
    before: Seq<BattlePlayer>,
    after: Seq<BattlePlayer>,
    seat: int,
    slot: usize,
    intent: BattleMove,
) -> bool {
    match before[seat].party.index_at(slot as int) {
        Some(index) => {
            &&& changed_at(before, after, seat)
            &&& after[seat].party.pokemon == before[seat].party.pokemon
            &&& after[seat].party.active@ == before[seat].party.active@.update(
                slot as int,
                Some(ActivePokemon { index, queued_move: Some(intent) }),
            )
        },
        None => after == before,
    }
}

/// Whether `after` is `before` once the creature at bench index `bench` of
/// the participant at `seat` was told to learn the move `id`. Nothing
/// changes where the bench holds no such creature.
pub open spec fn move_learned(
    before: Seq<BattlePlayer>,
    after: Seq<BattlePlayer>,
    seat: int,
    bench: usize,
    id: MoveId,
    index: Option<usize>,
) -> bool {
    let party = before[seat].party;
    if bench < party.pokemon@.len() {
        &&& changed_at(before, after, seat)
        &&& after[seat].party.active == party.active
        &&& after[seat].party.pokemon@.len() == party.pokemon@.len()
        &&& forall|i: int|
            0 <= i < party.pokemon@.len() && i != bench
                ==> #[trigger] after[seat].party.pokemon@[i] == party.pokemon@[i]
        &&& learned(party.pokemon@[bench as int], after[seat].party.pokemon@[bench as int], id,
            index)
    } else {
        after == before
    }
}

/// The outbox after a participant asked to fill its active slot `slot`
/// with the creature at bench index `index`. Where that can be done, the
/// others are shown the creature if they had not seen it, they are told of
/// the replacement, and the participant is told that it was accepted;
/// where it cannot, the participant is told that it was not.
pub open spec fn replacement_notices(
    players: Seq<BattlePlayer>,
    outbox: Seq<Outbound>,
    id: PlayerId,
    slot: usize,
    index: usize,
) -> Seq<Outbound> {
    let user = PokemonIdentifier(id, slot);
    if can_switch(players, user, index) {
        let shown = match switch_reveals(players, user, index) {
            Some(unknown) => outbox.push(
                Outbound {
                    to: Recipient::Others(id),
                    message: ServerMessage::AddUnknown(PokemonIdentifier(id, index), unknown),
                },
            ),
            None => outbox,
        };
        shown.push(
            Outbound { to: Recipient::Others(id), message: ServerMessage::FaintReplace(user,
                index) },
        ).push(
            Outbound {
                to: Recipient::Player(id),
                message: ServerMessage::ConfirmFaintReplace(slot, true),
            },
        )
    } else {
        outbox.push(
            Outbound {
                to: Recipient::Player(id),
                message: ServerMessage::ConfirmFaintReplace(slot, false),
            },
        )
    }
}

/// Whether `after` is what handling one message of the participant at
/// `seat` makes of `before`.
///
/// - A move selection queues the intent for the slot.
/// - A faint replacement brings the creature in, if it can enter, and is
///   answered.
/// - A forfeit changes nothing.
/// - A move to learn is taken from the backlog into the move set.
/// - The word that the round was seen marks the participant as waiting.
pub open spec fn message_handled(
    before: BattleView,
    after: BattleView,
    seat: int,
    message: ClientMessage,
) -> bool {
    let id = before.players[seat].party.id;
    &&& after.state == before.state
    &&& after.data == before.data
    &&& after.winner == before.winner
    &&& match message {
        ClientMessage::Move(slot, intent) => {
            &&& intent_queued(before.players, after.players, seat, slot, intent)
            &&& after.outbox == before.outbox
        },
        ClientMessage::ReplaceFaint(slot, index) => {
            &&& switched(before.players, after.players, PokemonIdentifier(id, slot), index)
            &&& after.outbox == replacement_notices(
                before.players,
                before.outbox,
                id,
                slot,
                index,
            )
        },
        ClientMessage::Forfeit => after.players == before.players && after.outbox == before.outbox,
        ClientMessage::LearnMove(bench, move_id, index) => {
            &&& move_learned(before.players, after.players, seat, bench, move_id, index)
            &&& after.outbox == before.outbox
        },
        ClientMessage::FinishedTurnQueue => {
            &&& after.players == before.players.update(
                seat,
                BattlePlayer { waiting: true, ..before.players[seat] },
            )
            &&& after.outbox == before.outbox
        },
    }
}

/// Whether the participant at `seat` takes part and has a message that
/// was not read.
pub open spec fn has_mail(players: Seq<BattlePlayer>, seat: int) -> bool {
    0 <= seat < players.len() && !players[seat].deactivated && players[seat].inbox@.len() > 0
}

/// Whether the participant at `seat` is the one whose message is read
/// next: the first that has one.
pub open spec fn reads_next(players: Seq<BattlePlayer>, seat: int) -> bool {
    has_mail(players, seat) && forall|k: int| 0 <= k < seat ==> !has_mail(players, k)
}

/// The position of the participant whose message is read next, if any has
/// one.
pub open spec fn next_reader(players: Seq<BattlePlayer>) -> Option<int> {
    if exists|seat: int| reads_next(players, seat) {
        Some(choose|seat: int| reads_next(players, seat))
    } else {
        None
    }
}

/// Whether `after` is `before` with the oldest message of the participant
/// at `seat` taken from its inbox.
pub open spec fn mail_taken(
    before: Seq<BattlePlayer>,
    after: Seq<BattlePlayer>,
    seat: int,
) -> bool {
    &&& after.len() == before.len()
    &&& forall|k: int| 0 <= k < before.len() && k != seat ==> #[trigger] after[k] == before[k]
    &&& after[seat] == (BattlePlayer { inbox: after[seat].inbox, ..before[seat] })
    &&& after[seat].inbox@ == before[seat].inbox@.skip(1)
}

/// Whether `after` is what reading the oldest message of the participant
/// at `seat` makes of `before`: the message is taken from the inbox, which
/// leaves the battle as `taken`, and handled.
pub open spec fn received_from(
    before: BattleView,
    after: BattleView,
    seat: int,
    taken: BattleView,
) -> bool {
    &&& taken.state == before.state
    &&& taken.data == before.data
    &&& taken.winner == before.winner
    &&& taken.outbox == before.outbox
    &&& mail_taken(before.players, taken.players, seat)
    &&& message_handled(taken, after, seat, before.players[seat].inbox@[0])
}

/// Whether `after` is what reading one message makes of `before`: the
/// oldest message of the first participant that has one is taken and
/// handled. Nothing changes where no participant has one.
pub open spec fn received(before: BattleView, after: BattleView) -> bool {
    match next_reader(before.players) {
        None => after == before,
        Some(seat) => exists|taken: BattleView| received_from(before, after, seat, taken),
    }
}

/// Whether `after` is what reading `steps` messages, one after the other,
/// makes of `before`.
pub open spec fn drained(before: BattleView, after: BattleView, steps: nat) -> bool
    decreases steps,
{
    if steps == 0 {
        after == before
    } else {
        exists|mid: BattleView|
            drained(before, mid, (steps - 1) as nat) && #[trigger] received(mid, after)
    }
}

/// Whether every party that takes part has an intent queued for each of
/// its occupied slots.
pub open spec fn all_ready(players: Seq<BattlePlayer>) -> bool {
    forall|k: int|
        0 <= k < players.len() && !(#[trigger] players[k]).deactivated
            ==> players[k].party.is_ready()
}

/// Whether every participant that takes part has said that it has seen the
/// round.
pub open spec fn all_waiting(players: Seq<BattlePlayer>) -> bool {
    forall|k: int|
        0 <= k < players.len() && !(#[trigger] players[k]).deactivated ==> players[k].waiting
}

/// Whether some party that takes part has to fill a slot.
pub open spec fn any_must_replace(players: Seq<BattlePlayer>) -> bool {
    exists|k: int|
        0 <= k < players.len() && !(#[trigger] players[k]).deactivated
            && players[k].party.must_replace()
}

/// The participants with the readiness of those that take part taken
/// back.
pub open spec fn unready(players: Seq<BattlePlayer>) -> Seq<BattlePlayer> {
    Seq::new(
        players.len(),
        |k: int|
            if players[k].deactivated {
                players[k]
            } else {
                BattlePlayer { waiting: false, ..players[k] }
            },
    )
}

/// Whether the participant has just been defeated: it takes part, and no
/// creature of its party is available.
pub open spec fn is_beaten(player: BattlePlayer) -> bool {
    !player.deactivated && player.party.is_defeated()
}

/// The participants with those that were just defeated taken out.
pub open spec fn without_beaten(players: Seq<BattlePlayer>) -> Seq<BattlePlayer> {
    Seq::new(
        players.len(),
        |k: int|
            if is_beaten(players[k]) {
                BattlePlayer { deactivated: true, ..players[k] }
            } else {
                players[k]
            },
    )
}

/// The messages that tell the participants below `upto` that were just
/// defeated that they have lost.
pub open spec fn defeat_notices(players: Seq<BattlePlayer>, upto: int) -> Seq<Outbound>
    decreases upto,
{
    if upto <= 0 {
        Seq::empty()
    } else {
        let rest = defeat_notices(players, upto - 1);
        if is_beaten(players[upto - 1]) {
            rest.push(
                Outbound {
                    to: Recipient::Player(players[upto - 1].party.id),
                    message: ServerMessage::End(EndMessage::Lose),
                },
            )
        } else {
            rest
        }
    }
}

/// The identifier of the first participant that takes part.
pub open spec fn first_standing_id(players: Seq<BattlePlayer>) -> Option<PlayerId> {
    if exists|seat: int| is_first_standing(players, seat) {
        Some(players[choose|seat: int| is_first_standing(players, seat)].party.id)
    } else {
        None
    }
}

/// What the battle is after the participants have seen a round.
///
/// Until every participant that takes part has said so, nothing changes.
/// Then every party without an available creature leaves the battle with
/// a loss. If at most one participant is left, the battle ends and the one
/// that is left wins. Else the battle goes on to the next selection, unless
/// a party has to fill a slot first.
pub open spec fn after_round(before: BattleView) -> BattleView {
    if !all_waiting(before.players) {
        before
    } else {
        let players = without_beaten(before.players);
        let outbox = before.outbox + defeat_notices(before.players, before.players.len() as int);
        if standing(players, players.len() as int) <= 1 {
            BattleView {
                state: BattleState::End,
                data: before.data,
                winner: first_standing_id(players),
                players,
                outbox: outbox + end_notices(
                    players,
                    first_standing_id(players),
                    players.len() as int,
                ),
            }
        } else if !any_must_replace(players) {
            BattleView { state: BattleState::StartSelecting, players, outbox, ..before }
        } else {
            BattleView { players, outbox, ..before }
        }
    }
}

/// Whether `after` is the battle `before` after it has begun.
pub open spec fn begun(before: BattleView, after: BattleView) -> bool {
    &&& after.state == BattleState::StartSelecting
    &&& after.data == before.data
    &&& after.winner == before.winner
    &&& after.players.len() == before.players.len()
    &&& forall|k: int|
        0 <= k < before.players.len() ==> revealed(before.players[k], #[trigger] after.players[k])
    &&& after.outbox.len() >= before.outbox.len()
    &&& after.outbox.take(before.outbox.len() as int) == before.outbox
    &&& begin_sent(
        after.players,
        after.data,
        after.players.len() as int,
        after.outbox.skip(before.outbox.len() as int),
    )
}

/// The log that a message carries, if it is one that tells of a round.
pub open spec fn turn_log(message: ServerMessage) -> Seq<Indexed<ClientMove>> {
    match message {
        ServerMessage::TurnQueue(log) => log@,
        _ => Seq::empty(),
    }
}

/// Whether `after` is the battle `before` after a round was scheduled as
/// `queue`, which left the battle as `scheduled`, and resolved, which left
/// it as `done`: the queued intents were taken and put in order, the order
/// was resolved, and the log of it was queued for every participant.
pub open spec fn round_played_with(
    before: BattleView,
    after: BattleView,
    items: Map<ItemId, ItemData>,
    scheduled: BattleView,
    queue: Seq<Indexed<BattleMove>>,
    done: BattleView,
) -> bool {
    &&& scheduled.state == before.state
    &&& scheduled.data == before.data
    &&& scheduled.winner == before.winner
    &&& scheduled.outbox == before.outbox
    &&& scheduled.players.len() == before.players.len()
    &&& forall|k: int|
        0 <= k < before.players.len() ==> intents_taken(
            before.players[k],
            #[trigger] scheduled.players[k],
        )
    &&& is_schedule(before.players, queue)
    &&& after.state == BattleState::WaitMoving
    &&& after.data == done.data
    &&& after.winner == done.winner
    &&& after.players == done.players
    &&& after.outbox.len() == done.outbox.len() + 1
    &&& after.outbox.drop_last() == done.outbox
    &&& after.outbox.last().to == Recipient::All
    &&& after.outbox.last().message is TurnQueue
    &&& round_resolved(scheduled, done, items, queue, turn_log(after.outbox.last().message))
}

/// Whether `after` is the battle `before` after a round was scheduled and
/// resolved.
pub open spec fn round_played(
    before: BattleView,
    after: BattleView,
    items: Map<ItemId, ItemData>,
) -> bool {
    exists|scheduled: BattleView, queue: Seq<Indexed<BattleMove>>, done: BattleView|
        round_played_with(before, after, items, scheduled, queue, done)
}

/// Whether `after` is what one step of the state machine makes of
/// `before`.
///
/// - Before the start: the battle begins.
/// - Selection starts: the readiness of the participants is taken back,
///   all are asked to select, and the battle waits for them.
/// - Waiting for selections: once every party is ready to move, the round
///   is about to be resolved.
/// - The round starts: it is scheduled and resolved, and the battle waits
///   until it was seen.
/// - Waiting for the round to be seen: see [`after_round`].
/// - Over: nothing changes.
pub open spec fn stepped(
    before: BattleView,
    after: BattleView,
    items: Map<ItemId, ItemData>,
) -> bool {
    match before.state {
        BattleState::Start => begun(before, after),
        BattleState::StartSelecting => after == (BattleView {
            state: BattleState::WaitSelecting,
            data: before.data,
            winner: before.winner,
            players: unready(before.players),
            outbox: before.outbox.push(
                Outbound { to: Recipient::All, message: ServerMessage::StartSelecting },
            ),
        }),
        BattleState::WaitSelecting => after == (BattleView {
            state: if all_ready(before.players) {
                BattleState::StartMoving
            } else {
                BattleState::WaitSelecting
            },
            ..before
        }),
        BattleState::StartMoving => round_played(before, after, items),
        BattleState::WaitMoving => after == after_round(before),
        BattleState::End => after == before,
    }
}

/// Whether `after` is what one update makes of `before`: every message
/// that waits is read, then the state machine takes one step.
pub open spec fn updated(
    before: BattleView,
    after: BattleView,
    items: Map<ItemId, ItemData>,
) -> bool {
    exists|read: BattleView, steps: nat|
        {
            &&& #[trigger] drained(before, read, steps)
            &&& next_reader(read.players) is None
            &&& stepped(read, after, items)
        }
}

impl Battle {
    /// Handles one message of the participant at `seat`.
    fn handle(&mut self, seat: usize, message: ClientMessage)
        requires
            old(self).wf(),
            seat < old(self)@.players.len(),
        ensures
            final(self).wf(),
            message_handled(old(self)@, final(self)@, seat as int, message),
            final(self)@.players.len() == old(self)@.players.len(),
            forall|k: int|
                0 <= k < old(self)@.players.len() ==> (#[trigger] final(self)@.players[k]).inbox
                    == old(self)@.players[k].inbox && final(self)@.players[k].deactivated
                        == old(self)@.players[k].deactivated,
    {
        let id: PlayerId = self.players[seat].party.id;
        match message {
            ClientMessage::Move(slot, intent) => {
                let queued = self.players[seat].party.queue(slot, intent);
                proof {
                    if !queued {
                        assert(self.players@ =~= old(self).players@);
                    }
                }
            },
            ClientMessage::ReplaceFaint(slot, index) => {
                let (done, unknown) = apply_switch(
                    &mut self.players,
                    PokemonIdentifier(id, slot),
                    index,
                );
                if done {
                    match unknown {
                        Some(unknown) => {
                            self.outbox.push(
                                Outbound {
                                    to: Recipient::Others(id),
                                    message: ServerMessage::AddUnknown(
                                        PokemonIdentifier(id, index),
                                        unknown,
                                    ),
                                },
                            );
                        },
                        None => {},
                    }
                    self.outbox.push(
                        Outbound {
                            to: Recipient::Others(id),
                            message: ServerMessage::FaintReplace(
                                PokemonIdentifier(id, slot),
                                index,
                            ),
                        },
                    );
                    self.outbox.push(
                        Outbound {
                            to: Recipient::Player(id),
                            message: ServerMessage::ConfirmFaintReplace(slot, true),
                        },
                    );
                } else {
                    self.outbox.push(
                        Outbound {
                            to: Recipient::Player(id),
                            message: ServerMessage::ConfirmFaintReplace(slot, false),
                        },
                    );
                }
            },
            ClientMessage::Forfeit => {},
            ClientMessage::LearnMove(bench, move_id, index) => {
                let known: bool = bench < self.players[seat].party.pokemon.len();
                self.players[seat].party.learn(bench, move_id, index);
                proof {
                    if !known {
                        assert(self.players@ =~= old(self).players@);
                    }
                }
            },
            ClientMessage::FinishedTurnQueue => {
                self.players[seat].waiting = true;
            },
        }
    }

    /// Reads every message that waits in the inbox of a participant that
    /// takes part, the participants in their order and the messages of each
    /// oldest first, and handles each as it is read.
    pub fn receive_all(&mut self)
        requires
            old(self).wf(),
        ensures
            final(self).wf(),
            exists|steps: nat| #[trigger] drained(old(self)@, final(self)@, steps),
            next_reader(final(self)@.players) is None,
    {
        let ghost mut steps: nat = 0;
        let mut seat: usize = 0;
        while seat < self.players.len()
            invariant
                seat <= self.players.len(),
                self.wf(),
                self.players@.len() == old(self).players@.len(),
                drained(old(self)@, self@, steps),
                forall|k: int| 0 <= k < seat ==> !has_mail(self.players@, k),
            decreases self.players.len() - seat,
        {
            if !self.players[seat].deactivated {
                while self.players[seat].inbox.len() > 0
                    invariant
                        seat < self.players.len(),
                        self.wf(),
                        !self.players@[seat as int].deactivated,
                        self.players@.len() == old(self).players@.len(),
                        drained(old(self)@, self@, steps),
                        forall|k: int| 0 <= k < seat ==> !has_mail(self.players@, k),
                    decreases self.players@[seat as int].inbox@.len(),
                {
                    let ghost before = self@;
                    proof {
                        assert(reads_next(before.players, seat as int));
                        let chosen = next_reader(before.players)->0;
                    }
                    let message = match self.players[seat].receive() {
                        Some(message) => message,
                        None => ClientMessage::Forfeit,
                    };
                    let ghost taken = self@;
                    self.handle(seat, message);
                    proof {
                        assert(received_from(before, self@, seat as int, taken));
                        assert(received(before, self@));
                        steps = steps + 1;
                        assert forall|k: int| 0 <= k < seat implies !has_mail(self.players@, k) by {
                            assert(!has_mail(before.players, k));
                        }
                    }
                }
            }
            seat += 1;
        }
    }

    /// Whether every party that takes part is ready to move.
    fn everyone_ready(&self) -> (ready: bool)
        ensures
            ready == all_ready(self@.players),
    {
        let mut seat: usize = 0;
        while seat < self.players.len()
            invariant
                seat <= self.players.len(),
                forall|k: int|
                    0 <= k < seat && !(#[trigger] self.players@[k]).deactivated
                        ==> self.players@[k].party.is_ready(),
            decreases self.players.len() - seat,
        {
            if !self.players[seat].deactivated && !self.players[seat].party.ready_to_move() {
                return false;
            }
            seat += 1;
        }
        true
    }

    /// Whether every participant that takes part has seen the round.
    fn everyone_waiting(&self) -> (waiting: bool)
        ensures
            waiting == all_waiting(self@.players),
    {
        let mut seat: usize = 0;
        while seat < self.players.len()
            invariant
                seat <= self.players.len(),
                forall|k: int|
                    0 <= k < seat && !(#[trigger] self.players@[k]).deactivated
                        ==> self.players@[k].waiting,
            decreases self.players.len() - seat,
        {
            if !self.players[seat].deactivated && !self.players[seat].waiting {
                return false;
            }
            seat += 1;
        }
        true
    }

    /// Whether some party that takes part has to fill a slot.
    fn anyone_replacing(&self) -> (replacing: bool)
        ensures
            replacing == any_must_replace(self@.players),
    {
        let mut seat: usize = 0;
        while seat < self.players.len()
            invariant
                seat <= self.players.len(),
                forall|k: int|
                    0 <= k < seat ==> !(!(#[trigger] self.players@[k]).deactivated
                        && self.players@[k].party.must_replace()),
            decreases self.players.len() - seat,
        {
            if !self.players[seat].deactivated && self.players[seat].party.needs_replace() {
                return true;
            }
            seat += 1;
        }
        false
    }

    /// Whether at most one participant takes part.
    fn at_most_one_standing(&self) -> (few: bool)
        ensures
            few == (standing(self@.players, self@.players.len() as int) <= 1),
    {
        let mut count: usize = 0;
        let mut seat: usize = 0;
        while seat < self.players.len()
            invariant
                seat <= self.players.len(),
                count == standing(self.players@, seat as int),
                count <= seat,
            decreases self.players.len() - seat,
        {
            if !self.players[seat].deactivated {
                count += 1;
            }
            seat += 1;
        }
        count <= 1
    }

    /// Takes the readiness of the participants back and asks all to
    /// select.
    fn start_selecting(&mut self)
        requires
            old(self).wf(),
        ensures
            final(self).wf(),
            final(self)@ == (BattleView {
                state: BattleState::WaitSelecting,
                data: old(self)@.data,
                winner: old(self)@.winner,
                players: unready(old(self)@.players),
                outbox: old(self)@.outbox.push(
                    Outbound { to: Recipient::All, message: ServerMessage::StartSelecting },
                ),
            }),
    {
        let mut seat: usize = 0;
        while seat < self.players.len()
            invariant
                seat <= self.players.len(),
                players_wf(self.players@),
                self.state == old(self).state,
                self.data == old(self).data,
                self.winner == old(self).winner,
                self.outbox == old(self).outbox,
                self.players@.len() == old(self).players@.len(),
                forall|k: int|
                    0 <= k < seat ==> #[trigger] self.players@[k] == unready(
                        old(self).players@,
                    )[k],
                forall|k: int|
                    seat <= k < self.players@.len() ==> #[trigger] self.players@[k]
                        == old(self).players@[k],
            decreases self.players.len() - seat,
        {
            if !self.players[seat].deactivated {
                self.players[seat].waiting = false;
            }
            seat += 1;
        }
        assert(self.players@ =~= unready(old(self).players@));
        self.outbox.push(Outbound { to: Recipient::All, message: ServerMessage::StartSelecting });
        self.state = BattleState::WaitSelecting;
    }

    /// Takes every party without an available creature out of the battle
    /// and tells it that it has lost.
    fn remove_beaten(&mut self)
        requires
            old(self).wf(),
        ensures
            final(self).wf(),
            final(self)@ == (BattleView {
                players: without_beaten(old(self)@.players),
                outbox: old(self)@.outbox + defeat_notices(
                    old(self)@.players,
                    old(self)@.players.len() as int,
                ),
                ..old(self)@
            }),
    {
        let mut seat: usize = 0;
        while seat < self.players.len()
            invariant
                seat <= self.players.len(),
                players_wf(self.players@),
                self.state == old(self).state,
                self.data == old(self).data,
                self.winner == old(self).winner,
                self.players@.len() == old(self).players@.len(),
                self.outbox@ == old(self).outbox@ + defeat_notices(old(self).players@, seat as int),
                forall|k: int|
                    0 <= k < seat ==> #[trigger] self.players@[k] == without_beaten(
                        old(self).players@,
                    )[k],
                forall|k: int|
                    seat <= k < self.players@.len() ==> #[trigger] self.players@[k]
                        == old(self).players@[k],
            decreases self.players.len() - seat,
        {
            if !self.players[seat].deactivated && self.players[seat].party.all_fainted() {
                self.players[seat].deactivated = true;
                self.outbox.push(
                    Outbound {
                        to: Recipient::Player(self.players[seat].party.id),
                        message: ServerMessage::End(EndMessage::Lose),
                    },
                );
            }
            seat += 1;
        }
        assert(self.players@ =~= without_beaten(old(self).players@));
    }

    /// Takes one step of the state machine.
    pub fn step<E: MoveEngine>(&mut self, random: &mut StdRng, engine: &E, items: &Items)
        requires
            old(self).wf(),
        ensures
            final(self).wf(),
            stepped(old(self)@, final(self)@, items@),
    {
        match self.state {
            BattleState::Start => {
                self.begin();
            },
            BattleState::StartSelecting => {
                self.start_selecting();
            },
            BattleState::WaitSelecting => {
                if self.everyone_ready() {
                    self.state = BattleState::StartMoving;
                }
            },
            BattleState::StartMoving => {
                let queue = move_queue(&mut self.players, random);
                let ghost scheduled = self@;
                let ghost order = queue@;
                let log = self.client_queue(random, engine, items, queue);
                let ghost done = self@;
                self.outbox.push(
                    Outbound { to: Recipient::All, message: ServerMessage::TurnQueue(log) },
                );
                self.state = BattleState::WaitMoving;
                proof {
                    assert(self@.outbox.drop_last() =~= done.outbox);
                    assert(round_played_with(old(self)@, self@, items@, scheduled, order, done));
                }
            },
            BattleState::WaitMoving => {
                if self.everyone_waiting() {
                    self.remove_beaten();
                    if self.at_most_one_standing() {
                        let winner = first_standing(&self.players);
                        proof {
                            let players = self.players@;
                        }
                        self.end(winner);
                    } else if !self.anyone_replacing() {
                        self.state = BattleState::StartSelecting;
                    }
                }
            },
            BattleState::End => {},
        }
    }

    /// Updates the battle: reads every message that waits, then takes one
    /// step of the state machine.
    pub fn update<E: MoveEngine>(&mut self, random: &mut StdRng, engine: &E, items: &Items)
        requires
            old(self).wf(),
        ensures
            final(self).wf(),
            updated(old(self)@, final(self)@, items@),
    {
        self.receive_all();
        self.step(random, engine, items);
    }
}

/// A queued move of a creature that is not in its slot, as one that fainted
/// earlier in the round is not, changes nothing and leaves no entry.
pub proof fn lemma_absent_user_does_nothing(
    before: BattleView,
    after: BattleView,
    user: PokemonIdentifier,
    move_index: int,
    turn: Turn,
    entries: Seq<Indexed<ClientMove>>,
)
    requires
        place_of(before.players, user) is None,
        move_resolved(before, after, user, move_index, turn, entries),
    ensures
        after == before,
        entries.len() == 0,
{
}

/// Whether the state machine can go from the phase `from` to the phase
/// `to` in one step: along the cycle of selecting and moving, staying
/// where it waits, and from waiting for the round to be seen to the end,
/// which is never left.
pub open spec fn follows(from: BattleState, to: BattleState) -> bool {
    match from {
        BattleState::Start => to == BattleState::StartSelecting,
        BattleState::StartSelecting => to == BattleState::WaitSelecting,
        BattleState::WaitSelecting => to == BattleState::WaitSelecting || to
            == BattleState::StartMoving,
        BattleState::StartMoving => to == BattleState::WaitMoving,
        BattleState::WaitMoving => to == BattleState::WaitMoving || to
            == BattleState::StartSelecting || to == BattleState::End,
        BattleState::End => to == BattleState::End,
    }
}

/// Every step of the state machine follows the phases, and none changes the
/// facts of the battle. A winner is recorded only by the step that ends the
/// battle.
pub proof fn lemma_step_follows_the_phases(
    before: BattleView,
    after: BattleView,
    items: Map<ItemId, ItemData>,
)
    requires
        stepped(before, after, items),
    ensures
        follows(before.state, after.state),
        after.data == before.data,
        before.state == BattleState::End || after.state != BattleState::End ==> after.winner
            == before.winner,
{
    if before.state == BattleState::StartMoving {
        let (scheduled, queue, done) = choose|
            scheduled: BattleView,
            queue: Seq<Indexed<BattleMove>>,
            done: BattleView,
        | round_played_with(before, after, items, scheduled, queue, done);
        lemma_round_keeps_the_phase(
            scheduled,
            done,
            items,
            queue,
            turn_log(after.outbox.last().message),
        );
    }
}

/// Resolving a round changes neither the phase nor the facts of the
/// battle.
pub proof fn lemma_round_keeps_the_phase(
    before: BattleView,
    after: BattleView,
    items: Map<ItemId, ItemData>,
    queue: Seq<Indexed<BattleMove>>,
    log: Seq<Indexed<ClientMove>>,
)
    requires
        round_resolved(before, after, items, queue, log),
    ensures
        after.state == before.state,
        after.data == before.data,
        after.winner == before.winner,
{
    let (turns, done) = choose|turns: Seq<Turn>, done: BattleView|
        round_resolved_with(before, after, items, queue, log, turns, done);
    lemma_queue_keeps_the_phase(before, done, items, queue, turns, log);
}

/// Resolving queued actions changes neither the phase nor the facts of the
/// battle.
pub proof fn lemma_queue_keeps_the_phase(
    before: BattleView,
    after: BattleView,
    items: Map<ItemId, ItemData>,
    queue: Seq<Indexed<BattleMove>>,
    turns: Seq<Turn>,
    log: Seq<Indexed<ClientMove>>,
)
    requires
        queue_resolved(before, after, items, queue, turns, log),
    ensures
        after.state == before.state,
        after.data == before.data,
        after.winner == before.winner,
    decreases queue.len(),
{
    if queue.len() > 0 {
        let (mid, n) = choose|mid: BattleView, n: int|
            {
                &&& 0 <= n <= log.len()
                &&& turns.len() == queue.len()
                &&& queue_resolved(
                    before,
                    mid,
                    items,
                    queue.drop_last(),
                    turns.drop_last(),
                    log.take(n),
                )
                &&& #[trigger] resolved(
                    mid,
                    after,
                    items,
                    queue.last(),
                    turns.last(),
                    log.skip(n),
                )
            };
        lemma_queue_keeps_the_phase(
            before,
            mid,
            items,
            queue.drop_last(),
            turns.drop_last(),
            log.take(n),
        );
    }
}

/// Reading messages changes neither the phase nor the facts of the battle:
/// the phase moves only when the state machine takes a step.
pub proof fn lemma_reading_keeps_the_phase(before: BattleView, after: BattleView, steps: nat)
    requires
        drained(before, after, steps),
    ensures
        after.state == before.state,
        after.data == before.data,
        after.winner == before.winner,
    decreases steps,
{
    if steps > 0 {
        let mid = choose|mid: BattleView|
            drained(before, mid, (steps - 1) as nat) && #[trigger] received(mid, after);
        lemma_reading_keeps_the_phase(before, mid, (steps - 1) as nat);
    }
}

/// An update follows the phases.
pub proof fn lemma_update_follows_the_phases(
    before: BattleView,
    after: BattleView,
    items: Map<ItemId, ItemData>,
)
    requires
        updated(before, after, items),
    ensures
        follows(before.state, after.state),
        after.data == before.data,
        before.state == BattleState::End || after.state != BattleState::End ==> after.winner
            == before.winner,
{
    let (read, steps) = choose|read: BattleView, steps: nat|
        {
            &&& #[trigger] drained(before, read, steps)
            &&& next_reader(read.players) is None
            &&& stepped(read, after, items)
        };
    lemma_reading_keeps_the_phase(before, read, steps);
    lemma_step_follows_the_phases(read, after, items);
}

} // verus!
