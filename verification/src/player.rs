//! The participants of a battle.

use crate::message::ClientMessage;
use crate::party::BattleParty;
use crate::party::first_available;
use crate::pokemon::{BattlePokemon, PlayerId, PokemonIdentifier};
use vstd::prelude::*;

verus! {

/// What a participant has chosen for the battle.
#[derive(Clone, Copy, Debug, PartialEq, Eq, Structural)]
pub struct PlayerSettings {
    /// Whether the participant's creatures gain experience.
    pub gains_exp: bool,
}

/// A participant: its party, its settings and the messages that came from
/// it and were not read yet.
#[derive(Debug)]
pub struct BattlePlayer {
    pub party: BattleParty,
    pub settings: PlayerSettings,
    /// Messages from the participant, oldest first.
    pub inbox: Vec<ClientMessage>,
    /// Whether the participant has said that it is ready to go on.
    pub waiting: bool,
    /// Whether the participant has left the battle, defeated or removed.
    pub deactivated: bool,
}

/// Whether `seat` is the position of the participant `id`.
pub open spec fn is_seat(players: Seq<BattlePlayer>, id: PlayerId, seat: int) -> bool {
    0 <= seat < players.len() && players[seat].party.id == id
}

/// The position of the participant `id`, if there is one.
pub open spec fn seat_of(players: Seq<BattlePlayer>, id: PlayerId) -> Option<int> {
    if exists|seat: int| is_seat(players, id, seat) {
        Some(choose|seat: int| is_seat(players, id, seat))
    } else {
        None
    }
}

/// No two participants share an identifier.
pub open spec fn ids_distinct(players: Seq<BattlePlayer>) -> bool {
    forall|j: int, k: int|
        0 <= j < players.len() && 0 <= k < players.len() && j != k ==> (
        #[trigger] players[j]).party.id != (#[trigger] players[k]).party.id
}

/// Identifiers are distinct and every party keeps its invariant.
pub open spec fn players_wf(players: Seq<BattlePlayer>) -> bool {
    &&& ids_distinct(players)
    &&& forall|k: int| 0 <= k < players.len() ==> (#[trigger] players[k]).party.wf()
}

/// The creature that an identifier addresses through an active slot.
pub open spec fn active_at(players: Seq<BattlePlayer>, id: PokemonIdentifier) -> Option<
    BattlePokemon,
> {
    match seat_of(players, id.0) {
        Some(seat) => match players[seat].party.index_at(id.1 as int) {
            Some(index) => Some(players[seat].party.pokemon@[index as int]),
            None => None,
        },
        None => None,
    }
}

/// Among distinct identifiers a position that fits is the position.
pub proof fn lemma_seat_unique(players: Seq<BattlePlayer>, id: PlayerId, seat: int)
    requires
        ids_distinct(players),
        is_seat(players, id, seat),
    ensures
        seat_of(players, id) == Some(seat),
{
}

/// The position of the participant `id`.
pub fn find_player(players: &Vec<BattlePlayer>, id: PlayerId) -> (seat: Option<usize>)
    requires
        ids_distinct(players@),
    ensures
        match seat {
            Some(seat) => seat_of(players@, id) == Some(seat as int) && is_seat(
                players@,
                id,
                seat as int,
            ),
            None => seat_of(players@, id) is None,
        },
{
    let mut seat: usize = 0;
    while seat < players.len()
        invariant
            seat <= players.len(),
            ids_distinct(players@),
            forall|k: int| 0 <= k < seat ==> !is_seat(players@, id, k),
        decreases players.len() - seat,
    {
        if players[seat].party.id == id {
            proof {
                lemma_seat_unique(players@, id, seat as int);
            }
            return Some(seat);
        }
        seat += 1;
    }
    None
}

/// The creature that an identifier addresses through an active slot.
pub fn get_active(players: &Vec<BattlePlayer>, id: PokemonIdentifier) -> (pokemon: Option<
    &BattlePokemon,
>)
    requires
        players_wf(players@),
    ensures
        match active_at(players@, id) {
            Some(found) => pokemon == Some(&found),
            None => pokemon is None,
        },
{
    match find_player(players, id.0) {
        Some(seat) => players[seat].party.active(id.1),
        None => None,
    }
}

impl BattlePlayer {
    /// A participant that takes part, with nothing read or said yet.
    pub fn new(party: BattleParty, settings: PlayerSettings) -> (player: BattlePlayer)
        ensures
            player.party == party,
            player.settings == settings,
            player.inbox@.len() == 0,
            !player.waiting,
            !player.deactivated,
    {
        BattlePlayer { party, settings, inbox: Vec::new(), waiting: false, deactivated: false }
    }

    /// The participant's identifier.
    pub fn id(&self) -> (id: PlayerId)
        ensures
            id == self.party.id,
    {
        self.party.id
    }

    /// Hands the participant's oldest unread message over, if there is one.
    pub fn receive(&mut self) -> (message: Option<ClientMessage>)
        ensures
            final(self).party == old(self).party,
            final(self).settings == old(self).settings,
            final(self).waiting == old(self).waiting,
            final(self).deactivated == old(self).deactivated,
            match message {
                Some(message) => old(self).inbox@.len() > 0 && message == old(self).inbox@[0]
                    && final(self).inbox@ == old(self).inbox@.skip(1),
                None => old(self).inbox@.len() == 0 && final(self).inbox@.len() == 0,
            },
    {
        if self.inbox.len() > 0 {
            let message = self.inbox.remove(0);
            Some(message)
        } else {
            None
        }
    }

    /// Adds a message from the participant behind those that wait.
    pub fn deliver(&mut self, message: ClientMessage)
        ensures
            final(self).party == old(self).party,
            final(self).settings == old(self).settings,
            final(self).waiting == old(self).waiting,
            final(self).deactivated == old(self).deactivated,
            final(self).inbox@ == old(self).inbox@.push(message),
    {
        self.inbox.push(message);
    }
}

/// What a participant brings to a battle.
#[derive(Debug)]
pub struct PlayerData {
    pub id: PlayerId,
    /// The creatures of the participant, in the order of its bench.
    pub party: Vec<BattlePokemon>,
    /// How many creatures the participant has in the battle at a time.
    pub active: usize,
    pub settings: PlayerSettings,
}

/// Whether `player` is the participant that `data` describes as it enters
/// a battle: it takes part, has said and sent nothing, its first available
/// creatures stand in its active slots, and those count as shown.
pub open spec fn initialised(data: PlayerData, player: BattlePlayer) -> bool {
    &&& player.party.id == data.id
    &&& player.settings == data.settings
    &&& player.inbox@.len() == 0
    &&& !player.waiting
    &&& !player.deactivated
    &&& player.party.active@.len() == data.active
    &&& first_available(data.party@, player.party.active@)
    &&& player.party.pokemon@.len() == data.party@.len()
    &&& forall|i: int|
        0 <= i < data.party@.len() ==> #[trigger] player.party.pokemon@[i] == (BattlePokemon {
            known: data.party@[i].known || player.party.is_active(i as usize),
            ..data.party@[i]
        })
}

impl PlayerData {
    /// The participant as it enters the battle: its first available
    /// creatures stand in its active slots and count as shown.
    pub fn init(self) -> (player: BattlePlayer)
        requires
            forall|i: int| 0 <= i < self.party@.len() ==> (#[trigger] self.party@[i]).wf(),
        ensures
            player.party.wf(),
            initialised(self, player),
    {
        let mut party = BattleParty::new(self.id, self.active, self.party);
        let ghost formed = party;
        party.reveal_active();
        proof {
            assert forall|index: usize| party.is_active(index) == formed.is_active(index) by {
                assert forall|slot: int| #[trigger]
                    party.index_at(slot) == formed.index_at(slot) by {}
                if formed.is_active(index) {
                    let slot = choose|slot: int| #[trigger] formed.index_at(slot) == Some(index);
                }
                if party.is_active(index) {
                    let slot = choose|slot: int| #[trigger] party.index_at(slot) == Some(index);
                    assert(formed.index_at(slot) == Some(index));
                }
            }
        }
        BattlePlayer::new(party, self.settings)
    }
}

/// Whether identifiers are distinct and every party keeps its invariant.
pub fn players_valid(players: &Vec<BattlePlayer>) -> (valid: bool)
    ensures
        valid == players_wf(players@),
{
    let mut seat: usize = 0;
    while seat < players.len()
        invariant
            seat <= players.len(),
            forall|k: int| 0 <= k < seat ==> (#[trigger] players@[k]).party.wf(),
            forall|j: int, k: int|
                0 <= j < k < seat ==> (#[trigger] players@[j]).party.id != (
                #[trigger] players@[k]).party.id,
        decreases players.len() - seat,
    {
        if !players[seat].party.is_valid() {
            return false;
        }
        let mut earlier: usize = 0;
        while earlier < seat
            invariant
                earlier <= seat,
                seat < players.len(),
                forall|j: int|
                    0 <= j < earlier ==> (#[trigger] players@[j]).party.id
                        != players@[seat as int].party.id,
            decreases seat - earlier,
        {
            if players[earlier].party.id == players[seat].party.id {
                return false;
            }
            earlier += 1;
        }
        seat += 1;
    }
    true
}

} // verus!
