//! The messages that participants and the battle exchange.

use crate::data::BattleData;
use crate::moves::{BattleMove, ClientMove, MoveId};
use crate::party::{is_remote_of, RemoteParty};
use crate::player::BattlePlayer;
use crate::pokemon::{BattlePokemon, Indexed, PlayerId, PokemonIdentifier, RemotePokemon};
use vstd::prelude::*;

verus! {

/// A message from a participant to the battle.
#[derive(Clone, Copy, Debug, PartialEq, Eq, Structural)]
pub enum ClientMessage {
    /// Queue an intent for an active slot.
    Move(usize, BattleMove),
    /// Fill an empty active slot with the creature at a bench index.
    ReplaceFaint(usize, usize),
    /// Give up.
    Forfeit,
    /// Let the creature at a bench index learn a move of its backlog, in the
    /// given slot of a full move set.
    LearnMove(usize, MoveId, Option<usize>),
    /// Everything of the last round has been shown.
    FinishedTurnQueue,
}

/// How a battle ended for a participant.
#[derive(Clone, Copy, Debug, PartialEq, Eq, Structural)]
pub enum EndMessage {
    Win,
    Lose,
    Other,
}

/// What a participant waits for.
#[derive(Clone, Copy, Debug, PartialEq, Eq, Structural, Hash)]
pub enum TimedAction {
    Selecting,
    Replace,
}

/// A request of a participant that was turned down, with the active slot it
/// was about.
#[derive(Clone, Copy, Debug, PartialEq, Eq, Structural)]
pub enum FailedAction {
    Move(usize),
    Switch(usize),
    Replace(usize),
}

/// What a participant is asked to start.
#[derive(Debug)]
pub enum StartableAction {
    /// Choosing intents.
    Selecting,
    /// Showing the resolved round.
    Turns(Vec<Indexed<ClientMove>>),
}

/// What a participant is told of the battle when it begins.
#[derive(Debug)]
pub struct ClientPlayerData {
    pub data: BattleData,
    pub id: PlayerId,
    /// The bench index in each of the participant's own active slots.
    pub active: Vec<Option<usize>>,
    /// What the participant sees of every other party.
    pub remotes: Vec<RemoteParty>,
}

/// A message from the battle to participants.
#[derive(Debug)]
pub enum ServerMessage {
    /// The battle begins.
    Begin(ClientPlayerData),
    /// Choose intents.
    StartSelecting,
    /// The round as it was resolved, in order.
    TurnQueue(Vec<Indexed<ClientMove>>),
    /// Whether the replacement asked for an active slot was accepted.
    ConfirmFaintReplace(usize, bool),
    /// The active slot of a party now holds the creature at a bench index.
    FaintReplace(PokemonIdentifier, usize),
    /// A creature that had not been shown.
    AddUnknown(PokemonIdentifier, RemotePokemon),
    /// A creature that the participant caught.
    Catch(BattlePokemon),
    /// The battle is over for the participant.
    End(EndMessage),
}

/// Who a message is for.
#[derive(Clone, Copy, Debug, PartialEq, Eq, Structural)]
pub enum Recipient {
    /// Every participant that takes part.
    All,
    /// Every participant that takes part but one.
    Others(PlayerId),
    /// One participant.
    Player(PlayerId),
}

/// A message that waits to be sent.
#[derive(Debug)]
pub struct Outbound {
    pub to: Recipient,
    pub message: ServerMessage,
}

/// Whether `view` is what the participant at `seat` is told when the battle
/// begins: the facts of the battle, its own identifier, the bench index in
/// each of its active slots, and what it sees of every other party, in the
/// order of the participants.
pub open spec fn is_view_of(
    view: ClientPlayerData,
    data: BattleData,
    players: Seq<BattlePlayer>,
    seat: int,
) -> bool {
    &&& view.data == data
    &&& view.id == players[seat].party.id
    &&& view.active@.len() == players[seat].party.active@.len()
    &&& forall|s: int|
        0 <= s < view.active@.len() ==> #[trigger] view.active@[s] == players[seat].party.index_at(
            s,
        )
    &&& view.remotes@.len() == players.len() - 1
    &&& forall|j: int|
        0 <= j < view.remotes@.len() ==> is_remote_of(
            #[trigger] view.remotes@[j],
            players[if j < seat {
                j
            } else {
                j + 1
            }].party,
        )
}

impl ClientPlayerData {
    /// What the participant at `seat` is told when the battle begins.
    pub fn new(
        data: BattleData,
        players: &Vec<BattlePlayer>,
        seat: usize,
    ) -> (view: ClientPlayerData)
        requires
            seat < players@.len(),
        ensures
            is_view_of(view, data, players@, seat as int),
    {
        let mut active: Vec<Option<usize>> = Vec::new();
        let mut slot: usize = 0;
        while slot < players[seat].party.active.len()
            invariant
                seat < players@.len(),
                slot <= players@[seat as int].party.active@.len(),
                active@.len() == slot,
                forall|s: int|
                    0 <= s < slot ==> #[trigger] active@[s] == players@[seat as int].party.index_at(
                        s,
                    ),
            decreases players@[seat as int].party.active@.len() - slot,
        {
            active.push(players[seat].party.index(slot));
            slot += 1;
        }
        let mut remotes: Vec<RemoteParty> = Vec::new();
        let mut other: usize = 0;
        while other < players.len()
            invariant
                seat < players@.len(),
                other <= players@.len(),
                remotes@.len() == (if other <= seat {
                    other as int
                } else {
                    other - 1
                }),
                forall|j: int|
                    0 <= j < remotes@.len() ==> is_remote_of(
                        #[trigger] remotes@[j],
                        players@[if j < seat {
                            j
                        } else {
                            j + 1
                        }].party,
                    ),
            decreases players@.len() - other,
        {
            if other != seat {
                remotes.push(players[other].party.as_remote());
            }
            other += 1;
        }
        ClientPlayerData { data, id: players[seat].party.id, active, remotes }
    }
}

} // verus!
