//! The party of one participant: a bench of creatures and the active slots
//! that expose some of them to the battle.

use crate::data::BattleType;
use crate::moves::{BattleMove, ClientMoveAction, Experience, MoveData, MoveId, MoveResult};
use crate::pokemon::{
    battle_exp, learned, progressed, spent, BattlePokemon, ItemAction, PlayerId,
    RemotePokemon,
};
use vstd::prelude::*;

verus! {

/// What an occupied active slot holds: the bench index of the creature in
/// it and the intent queued for it.
#[derive(Clone, Copy, Debug, PartialEq, Eq, Structural)]
pub struct ActivePokemon {
    pub index: usize,
    pub queued_move: Option<BattleMove>,
}

/// The party of one participant.
#[derive(Debug)]
pub struct BattleParty {
    pub id: PlayerId,
    /// The active slots, each empty or holding a bench index.
    pub active: Vec<Option<ActivePokemon>>,
    /// The bench.
    pub pokemon: Vec<BattlePokemon>,
}

/// What the other participants see of a party.
#[derive(Debug)]
pub struct RemoteParty {
    pub id: PlayerId,
    /// The bench index in each active slot.
    pub active: Vec<Option<usize>>,
    /// The bench, with the creatures that were not shown yet left out.
    pub pokemon: Vec<Option<RemotePokemon>>,
}

/// What applying an outcome to a creature in an active slot gave.
#[derive(Clone, Copy, Debug)]
pub struct Strike {
    /// What the clients are shown, if anything.
    pub record: Option<ClientMoveAction>,
    /// The experience the creature yields, if the outcome made it faint.
    pub experience: Option<Experience>,
}

/// Whether `remote` is what the other participants see of `party`: its
/// identifier, the bench index in each active slot, and of the bench the
/// creatures that were shown.
pub open spec fn is_remote_of(remote: RemoteParty, party: BattleParty) -> bool {
    &&& remote.id == party.id
    &&& remote.active@.len() == party.active@.len()
    &&& forall|s: int|
        0 <= s < party.active@.len() ==> #[trigger] remote.active@[s] == party.index_at(s)
    &&& remote.pokemon@.len() == party.pokemon@.len()
    &&& forall|i: int|
        0 <= i < party.pokemon@.len() ==> #[trigger] remote.pokemon@[i] == (
        if party.pokemon@[i].known {
            Some(party.pokemon@[i].remote())
        } else {
            None
        })
}

/// What an active slot holds after the creature at bench index `gone` has
/// left the bench: the creatures behind it have moved up by one.
pub open spec fn rebased(held: Option<ActivePokemon>, gone: int) -> Option<ActivePokemon> {
    match held {
        Some(held) => Some(
            ActivePokemon {
                index: if held.index > gone {
                    (held.index - 1) as usize
                } else {
                    held.index
                },
                queued_move: held.queued_move,
            },
        ),
        None => None,
    }
}

/// The active slots after the creature in the slot `slot`, which stood at
/// bench index `gone`, has left the party: its slot is empty, and the
/// other slots name the creatures they named.
pub open spec fn slots_without(
    active: Seq<Option<ActivePokemon>>,
    slot: int,
    gone: int,
) -> Seq<Option<ActivePokemon>> {
    Seq::new(
        active.len(),
        |s: int|
            if s == slot {
                None
            } else {
                rebased(active[s], gone)
            },
    )
}

/// How many of the creatures of a bench below `upto` are available.
pub open spec fn available_before(pokemon: Seq<BattlePokemon>, upto: int) -> nat
    decreases upto,
{
    if upto <= 0 {
        0
    } else {
        available_before(pokemon, upto - 1) + (if pokemon[upto - 1].is_available() {
            1nat
        } else {
            0nat
        })
    }
}

/// The number of available creatures below a bench index does not fall as
/// the index rises.
pub proof fn lemma_available_before_rises(pokemon: Seq<BattlePokemon>, lower: int, upper: int)
    requires
        lower <= upper,
    ensures
        available_before(pokemon, lower) <= available_before(pokemon, upper),
    decreases upper - lower,
{
    if lower < upper {
        lemma_available_before_rises(pokemon, lower, upper - 1);
    }
}

/// Whether `active` are the slots of a party that was just formed from a
/// bench: the available creatures stand in the slots in the order of the
/// bench, as far as there are slots, with no intent queued; the slots that
/// are left are empty.
pub open spec fn first_available(
    pokemon: Seq<BattlePokemon>,
    active: Seq<Option<ActivePokemon>>,
) -> bool {
    &&& forall|index: int|
        0 <= index < pokemon.len() && (#[trigger] pokemon[index]).is_available()
            && available_before(pokemon, index) < active.len() ==> active[available_before(
            pokemon,
            index,
        ) as int] == Some(ActivePokemon { index: index as usize, queued_move: None })
    &&& forall|slot: int|
        available_before(pokemon, pokemon.len() as int) <= slot < active.len()
            ==> (#[trigger] active[slot]) is None
}

impl BattleParty {
    /// The bench index in an active slot, if the slot exists and is
    /// occupied.
    pub open spec fn index_at(&self, slot: int) -> Option<usize> {
        if 0 <= slot < self.active@.len() {
            match self.active@[slot] {
                Some(active) => Some(active.index),
                None => None,
            }
        } else {
            None
        }
    }

    /// Whether the creature at a bench index stands in some active slot.
    pub open spec fn is_active(&self, index: usize) -> bool {
        exists|slot: int| #[trigger] self.index_at(slot) == Some(index)
    }

    /// The party invariant: every creature is well formed; an occupied slot
    /// names a creature of the bench that is available; no creature stands
    /// in two slots.
    pub open spec fn wf(&self) -> bool {
        &&& forall|i: int| 0 <= i < self.pokemon@.len() ==> (#[trigger] self.pokemon@[i]).wf()
        &&& forall|slot: int|
            (#[trigger] self.index_at(slot)) matches Some(index) ==> index < self.pokemon@.len()
                && self.pokemon@[index as int].is_available()
        &&& forall|s: int, t: int|
            #![trigger self.index_at(s), self.index_at(t)]
            s != t && self.index_at(s) is Some ==> self.index_at(s) != self.index_at(t)
    }

    /// Whether a creature of the bench can be brought into a slot: it
    /// exists, is available and stands in no slot.
    pub open spec fn can_enter(&self, index: usize) -> bool {
        &&& index < self.pokemon@.len()
        &&& self.pokemon@[index as int].is_available()
        &&& !self.is_active(index)
    }

    /// Whether every occupied slot has an intent queued.
    pub open spec fn is_ready(&self) -> bool {
        forall|slot: int|
            0 <= slot < self.active@.len() ==> ((#[trigger] self.active@[slot]) matches Some(
                active,
            ) ==> active.queued_move is Some)
    }

    /// Whether no creature of the bench is available any more.
    pub open spec fn is_defeated(&self) -> bool {
        forall|i: int| 0 <= i < self.pokemon@.len()
            ==> !(#[trigger] self.pokemon@[i]).is_available()
    }

    /// Whether some available creature stands in no slot.
    pub open spec fn has_reserve(&self) -> bool {
        exists|i: int|
            0 <= i < self.pokemon@.len() && (#[trigger] self.pokemon@[i]).is_available()
                && !self.is_active(i as usize)
    }

    /// Whether some slot is empty.
    pub open spec fn has_vacancy(&self) -> bool {
        exists|slot: int| 0 <= slot < self.active@.len() && (#[trigger] self.active@[slot]) is None
    }

    /// Whether the party has to fill a slot before the battle goes on: a
    /// slot is empty and a creature is there to fill it.
    pub open spec fn must_replace(&self) -> bool {
        self.has_vacancy() && self.has_reserve()
    }

    /// The bench index in an active slot.
    pub fn index(&self, slot: usize) -> (index: Option<usize>)
        ensures
            index == self.index_at(slot as int),
    {
        if slot < self.active.len() {
            match self.active[slot] {
                Some(active) => Some(active.index),
                None => None,
            }
        } else {
            None
        }
    }

    /// The creature in an active slot.
    pub fn active(&self, slot: usize) -> (pokemon: Option<&BattlePokemon>)
        requires
            self.wf(),
        ensures
            match self.index_at(slot as int) {
                Some(index) => pokemon == Some(&self.pokemon@[index as int]),
                None => pokemon is None,
            },
    {
        match self.index(slot) {
            Some(index) => Some(&self.pokemon[index]),
            None => None,
        }
    }

    /// Whether the creature at a bench index stands in some active slot.
    pub fn active_contains(&self, index: usize) -> (contains: bool)
        ensures
            contains == self.is_active(index),
    {
        let mut slot: usize = 0;
        while slot < self.active.len()
            invariant
                slot <= self.active.len(),
                forall|s: int| 0 <= s < slot ==> #[trigger] self.index_at(s) != Some(index),
            decreases self.active.len() - slot,
        {
            match self.active[slot] {
                Some(active) => {
                    if active.index == index {
                        assert(self.index_at(slot as int) == Some(index));
                        return true;
                    }
                },
                None => {},
            }
            slot += 1;
        }
        false
    }

    /// Whether a creature of the bench can be brought into a slot.
    pub fn may_enter(&self, index: usize) -> (may: bool)
        ensures
            may == self.can_enter(index),
    {
        index < self.pokemon.len() && self.pokemon[index].available() && !self.active_contains(
            index,
        )
    }

    /// Empties an active slot.
    pub fn remove_active(&mut self, slot: usize)
        requires
            old(self).wf(),
        ensures
            final(self).wf(),
            final(self).id == old(self).id,
            final(self).pokemon == old(self).pokemon,
            final(self).active@.len() == old(self).active@.len(),
            forall|s: int|
                #![trigger final(self).index_at(s)]
                #![trigger final(self).active@[s]]
                0 <= s < old(self).active@.len() ==> final(self).active@[s] == (if s == slot {
                    None
                } else {
                    old(self).active@[s]
                }),
    {
        if slot < self.active.len() {
            self.active[slot] = None;
            proof {
                assert forall|s: int| #[trigger]
                    self.index_at(s) is Some implies self.index_at(s) == old(self).index_at(s) by {}
            }
        }
    }

    /// Puts the creature at a bench index into an active slot, with no
    /// intent queued.
    pub fn replace(&mut self, slot: usize, index: usize)
        requires
            old(self).wf(),
            slot < old(self).active@.len(),
            old(self).can_enter(index),
        ensures
            final(self).wf(),
            final(self).id == old(self).id,
            final(self).pokemon == old(self).pokemon,
            final(self).active@ == old(self).active@.update(
                slot as int,
                Some(ActivePokemon { index, queued_move: None }),
            ),
    {
        self.active[slot] = Some(ActivePokemon { index, queued_move: None });
        proof {
            assert forall|s: int| s != slot implies #[trigger] self.index_at(s)
                == old(self).index_at(s) by {}
        }
    }

    /// Marks the creature at a bench index as shown to the other
    /// participants. Returns what they see of it if they had not seen it.
    pub fn know(&mut self, index: usize) -> (unknown: Option<RemotePokemon>)
        requires
            old(self).wf(),
            index < old(self).pokemon@.len(),
        ensures
            final(self).wf(),
            final(self).id == old(self).id,
            final(self).active == old(self).active,
            final(self).pokemon@ == old(self).pokemon@.update(
                index as int,
                BattlePokemon { known: true, ..old(self).pokemon@[index as int] },
            ),
            unknown == (if old(self).pokemon@[index as int].known {
                None
            } else {
                Some(old(self).pokemon@[index as int].remote())
            }),
    {
        let unknown = if self.pokemon[index].known {
            None
        } else {
            Some(self.pokemon[index].as_remote())
        };
        self.pokemon[index].known = true;
        proof {
            assert forall|s: int| #[trigger] self.index_at(s) == old(self).index_at(s) by {}
        }
        unknown
    }

    /// Marks every creature that stands in an active slot as shown.
    pub fn reveal_active(&mut self)
        requires
            old(self).wf(),
        ensures
            final(self).wf(),
            final(self).id == old(self).id,
            final(self).active == old(self).active,
            final(self).pokemon@.len() == old(self).pokemon@.len(),
            forall|i: int|
                0 <= i < old(self).pokemon@.len() ==> #[trigger] final(self).pokemon@[i] == (
                BattlePokemon {
                    known: old(self).pokemon@[i].known || old(self).is_active(i as usize),
                    ..old(self).pokemon@[i]
                }),
    {
        let bench: usize = self.pokemon.len();
        let mut slot: usize = 0;
        while slot < self.active.len()
            invariant
                slot <= self.active.len(),
                self.wf(),
                self.id == old(self).id,
                self.active == old(self).active,
                self.pokemon@.len() == old(self).pokemon@.len(),
                bench == old(self).pokemon@.len(),
                forall|i: int|
                    0 <= i < old(self).pokemon@.len() ==> #[trigger] self.pokemon@[i] == (
                    BattlePokemon {
                        known: old(self).pokemon@[i].known || old(self).is_active_below(
                            i as usize,
                            slot as int,
                        ),
                        ..old(self).pokemon@[i]
                    }),
            decreases self.active.len() - slot,
        {
            proof {
                old(self).lemma_active_below_step(slot as int);
            }
            match self.index(slot) {
                Some(index) => {
                    let _ = self.know(index);
                },
                None => {},
            }
            slot += 1;
        }
    }

    /// Whether the creature at a bench index stands in an active slot below
    /// `bound`.
    pub open spec fn is_active_below(&self, index: usize, bound: int) -> bool {
        exists|slot: int| 0 <= slot < bound && #[trigger] self.index_at(slot) == Some(index)
    }

    /// A creature stands in a slot below `bound + 1` if it stands in one
    /// below `bound` or in the slot `bound`.
    pub proof fn lemma_active_below_step(&self, bound: int)
        requires
            0 <= bound,
        ensures
            forall|index: usize| #[trigger]
                self.is_active_below(index, bound + 1) == (self.is_active_below(index, bound)
                    || self.index_at(bound) == Some(index)),
    {
    }

    /// Whether every occupied slot has an intent queued.
    pub fn ready_to_move(&self) -> (ready: bool)
        ensures
            ready == self.is_ready(),
    {
        let mut slot: usize = 0;
        while slot < self.active.len()
            invariant
                slot <= self.active.len(),
                forall|s: int|
                    0 <= s < slot ==> ((#[trigger] self.active@[s]) matches Some(active)
                        ==> active.queued_move is Some),
            decreases self.active.len() - slot,
        {
            match self.active[slot] {
                Some(active) => {
                    if active.queued_move.is_none() {
                        return false;
                    }
                },
                None => {},
            }
            slot += 1;
        }
        true
    }

    /// Whether no creature of the bench is available any more.
    pub fn all_fainted(&self) -> (defeated: bool)
        ensures
            defeated == self.is_defeated(),
    {
        let mut i: usize = 0;
        while i < self.pokemon.len()
            invariant
                i <= self.pokemon.len(),
                forall|k: int| 0 <= k < i ==> !(#[trigger] self.pokemon@[k]).is_available(),
            decreases self.pokemon.len() - i,
        {
            if self.pokemon[i].available() {
                return false;
            }
            i += 1;
        }
        true
    }

    /// Whether some available creature stands in no slot.
    pub fn any_inactive(&self) -> (any: bool)
        ensures
            any == self.has_reserve(),
    {
        let mut i: usize = 0;
        while i < self.pokemon.len()
            invariant
                i <= self.pokemon.len(),
                forall|k: int|
                    0 <= k < i ==> !((#[trigger] self.pokemon@[k]).is_available()
                        && !self.is_active(k as usize)),
            decreases self.pokemon.len() - i,
        {
            if self.pokemon[i].available() && !self.active_contains(i) {
                return true;
            }
            i += 1;
        }
        false
    }

    /// Whether the party has to fill a slot before the battle goes on.
    pub fn needs_replace(&self) -> (needs: bool)
        ensures
            needs == self.must_replace(),
    {
        let mut vacancy: bool = false;
        let mut slot: usize = 0;
        while slot < self.active.len()
            invariant
                slot <= self.active.len(),
                vacancy == (exists|s: int| 0 <= s < slot && (#[trigger] self.active@[s]) is None),
            decreases self.active.len() - slot,
        {
            if self.active[slot].is_none() {
                vacancy = true;
            }
            slot += 1;
        }
        vacancy && self.any_inactive()
    }

    /// Queues an intent for an active slot. Returns whether the slot exists
    /// and is occupied; nothing changes where it is not.
    pub fn queue(&mut self, slot: usize, intent: BattleMove) -> (queued: bool)
        requires
            old(self).wf(),
        ensures
            final(self).wf(),
            final(self).id == old(self).id,
            final(self).pokemon == old(self).pokemon,
            queued == (old(self).index_at(slot as int) is Some),
            match old(self).index_at(slot as int) {
                Some(index) => final(self).active@ == old(self).active@.update(
                    slot as int,
                    Some(ActivePokemon { index, queued_move: Some(intent) }),
                ),
                None => final(self).active == old(self).active,
            },
    {
        match self.index(slot) {
            Some(index) => {
                self.active[slot] = Some(ActivePokemon { index, queued_move: Some(intent) });
                proof {
                    assert forall|s: int| #[trigger] self.index_at(s) == old(self).index_at(s) by {}
                }
                true
            },
            None => false,
        }
    }

    /// Takes the intent queued for an active slot, leaving none.
    pub fn take_queued(&mut self, slot: usize) -> (intent: Option<BattleMove>)
        requires
            old(self).wf(),
        ensures
            final(self).wf(),
            final(self).id == old(self).id,
            final(self).pokemon == old(self).pokemon,
            final(self).active@.len() == old(self).active@.len(),
            match old(self).index_at(slot as int) {
                Some(index) => intent == old(self).active@[slot as int]->0.queued_move
                    && final(self).active@ == old(self).active@.update(
                    slot as int,
                    Some(ActivePokemon { index, queued_move: None }),
                ),
                None => intent is None && final(self).active == old(self).active,
            },
    {
        if slot < self.active.len() {
            match self.active[slot] {
                Some(active) => {
                    self.active[slot] = Some(
                        ActivePokemon { index: active.index, queued_move: None },
                    );
                    proof {
                        assert forall|s: int| #[trigger]
                            self.index_at(s) == old(self).index_at(s) by {}
                    }
                    active.queued_move
                },
                None => None,
            }
        } else {
            None
        }
    }

    /// What the other participants see of the party.
    pub fn as_remote(&self) -> (remote: RemoteParty)
        ensures
            is_remote_of(remote, *self),
    {
        let mut active: Vec<Option<usize>> = Vec::new();
        let mut slot: usize = 0;
        while slot < self.active.len()
            invariant
                slot <= self.active.len(),
                active@.len() == slot,
                forall|s: int| 0 <= s < slot ==> #[trigger] active@[s] == self.index_at(s),
            decreases self.active.len() - slot,
        {
            active.push(self.index(slot));
            slot += 1;
        }
        let mut pokemon: Vec<Option<RemotePokemon>> = Vec::new();
        let mut i: usize = 0;
        while i < self.pokemon.len()
            invariant
                i <= self.pokemon.len(),
                pokemon@.len() == i,
                forall|k: int|
                    0 <= k < i ==> #[trigger] pokemon@[k] == (if self.pokemon@[k].known {
                        Some(self.pokemon@[k].remote())
                    } else {
                        None
                    }),
            decreases self.pokemon.len() - i,
        {
            if self.pokemon[i].known {
                pokemon.push(Some(self.pokemon[i].as_remote()));
            } else {
                pokemon.push(None);
            }
            i += 1;
        }
        RemoteParty { id: self.id, active, pokemon }
    }

    /// Whether the party invariant holds.
    pub fn is_valid(&self) -> (valid: bool)
        ensures
            valid == self.wf(),
    {
        let mut i: usize = 0;
        while i < self.pokemon.len()
            invariant
                i <= self.pokemon.len(),
                forall|k: int| 0 <= k < i ==> (#[trigger] self.pokemon@[k]).wf(),
            decreases self.pokemon.len() - i,
        {
            if !self.pokemon[i].is_valid() {
                return false;
            }
            i += 1;
        }
        let mut slot: usize = 0;
        while slot < self.active.len()
            invariant
                slot <= self.active.len(),
                forall|k: int| 0 <= k < self.pokemon@.len() ==> (#[trigger] self.pokemon@[k]).wf(),
                forall|s: int|
                    0 <= s < slot ==> ((#[trigger] self.index_at(s)) matches Some(index)
                        ==> index < self.pokemon@.len()
                        && self.pokemon@[index as int].is_available()),
                forall|s: int, t: int|
                    #![trigger self.index_at(s), self.index_at(t)]
                    0 <= s < t < slot && self.index_at(s) is Some ==> self.index_at(s)
                        != self.index_at(t),
            decreases self.active.len() - slot,
        {
            match self.index(slot) {
                Some(index) => {
                    if index >= self.pokemon.len() || !self.pokemon[index].available() {
                        return false;
                    }
                    let mut earlier: usize = 0;
                    while earlier < slot
                        invariant
                            earlier <= slot,
                            slot < self.active.len(),
                            self.index_at(slot as int) == Some(index),
                            forall|s: int|
                                0 <= s < earlier ==> #[trigger] self.index_at(s) != Some(index),
                        decreases slot - earlier,
                    {
                        if self.index(earlier) == Some(index) {
                            return false;
                        }
                        earlier += 1;
                    }
                },
                None => {},
            }
            slot += 1;
        }
        true
    }


    /// Whether an outcome makes the creature it leaves as `target` faint. A
    /// miss is never looked at for fainting.
    pub open spec fn faints(target: BattlePokemon, result: MoveResult) -> bool {
        !(result is Miss) && target.is_fainted()
    }

    /// Applies one outcome to the creature in an active slot. A creature
    /// that the outcome leaves without health leaves its slot at once, and
    /// the experience it yields is returned. Nothing happens, and `None` is
    /// returned, where the slot is empty.
    pub fn strike(&mut self, slot: usize, result: MoveResult, type_: BattleType) -> (strike:
        Option<Strike>)
        requires
            old(self).wf(),
        ensures
            final(self).wf(),
            final(self).id == old(self).id,
            match old(self).index_at(slot as int) {
                None => strike is None && final(self).active == old(self).active
                    && final(self).pokemon == old(self).pokemon,
                Some(index) => {
                    let target = old(self).pokemon@[index as int].after(result);
                    &&& final(self).pokemon@ == old(self).pokemon@.update(index as int, target)
                    &&& final(self).active@ == (if Self::faints(target, result) {
                        old(self).active@.update(slot as int, None)
                    } else {
                        old(self).active@
                    })
                    &&& strike matches Some(s) && s.record == target.record(result)
                        && s.experience == (if Self::faints(target, result) {
                        Some(battle_exp(target.base_exp, target.level, type_))
                    } else {
                        None
                    })
                },
            },
    {
        match self.index(slot) {
            None => None,
            Some(index) => {
                let record = self.apply_at(index, result);
                proof {
                    assert forall|s: int| #[trigger] self.index_at(s) == old(self).index_at(s) by {}
                }
                let missed: bool = match result {
                    MoveResult::Miss => true,
                    _ => false,
                };
                if !missed && self.pokemon[index].fainted() {
                    let experience = self.pokemon[index].battle_exp_from(type_);
                    let ghost struck = *self;
                    self.active[slot] = None;
                    proof {
                        assert forall|s: int| #[trigger]
                            self.index_at(s) is Some implies self.index_at(s) == struck.index_at(
                            s,
                        ) && s != slot by {}
                    }
                    Some(Strike { record, experience: Some(experience) })
                } else {
                    Some(Strike { record, experience: None })
                }
            },
        }
    }

    /// Gives the creature in an active slot the experience of a defeated
    /// opponent and says what the clients are shown: the experience and the
    /// level reached. Nothing happens where the slot is empty.
    pub fn reward(&mut self, slot: usize, experience: Experience) -> (record: Option<
        ClientMoveAction,
    >)
        requires
            old(self).wf(),
        ensures
            final(self).wf(),
            final(self).id == old(self).id,
            final(self).active == old(self).active,
            match old(self).index_at(slot as int) {
                None => record is None && final(self).pokemon == old(self).pokemon,
                Some(index) => {
                    &&& final(self).pokemon@.len() == old(self).pokemon@.len()
                    &&& forall|i: int|
                        0 <= i < old(self).pokemon@.len() && i != index
                            ==> #[trigger] final(self).pokemon@[i] == old(self).pokemon@[i]
                    &&& progressed(
                        old(self).pokemon@[index as int],
                        final(self).pokemon@[index as int],
                        experience,
                    )
                    &&& record == Some(
                        ClientMoveAction::SetExp(
                            experience,
                            final(self).pokemon@[index as int].level,
                        ),
                    )
                },
            },
    {
        match self.index(slot) {
            None => None,
            Some(index) => {
                self.pokemon[index].add_exp(experience);
                proof {
                    assert forall|s: int| #[trigger] self.index_at(s) == old(self).index_at(s) by {}
                }
                Some(ClientMoveAction::SetExp(experience, self.pokemon[index].level))
            },
        }
    }

    /// The definition of the move that the creature in an active slot has in
    /// slot `move_index` of its move set, if it can be used.
    pub open spec fn usable_move(&self, slot: int, move_index: int) -> Option<MoveData> {
        match self.index_at(slot) {
            Some(index) => self.pokemon@[index as int].usable_move(move_index),
            None => None,
        }
    }

    /// The move that the creature in an active slot would use.
    pub fn try_use(&self, slot: usize, move_index: usize) -> (used: Option<MoveData>)
        requires
            self.wf(),
        ensures
            used == self.usable_move(slot as int, move_index as int),
    {
        match self.index(slot) {
            Some(index) => self.pokemon[index].try_use(move_index),
            None => None,
        }
    }

    /// Spends one use of a move of the creature at a bench index, whether
    /// or not the creature stands in a slot. Nothing happens where the
    /// bench holds no such creature.
    pub fn spend(&mut self, index: usize, move_index: usize)
        requires
            old(self).wf(),
        ensures
            final(self).wf(),
            final(self).id == old(self).id,
            final(self).active == old(self).active,
            if index < old(self).pokemon@.len() {
                &&& final(self).pokemon@.len() == old(self).pokemon@.len()
                &&& forall|i: int|
                    0 <= i < old(self).pokemon@.len() && i != index
                        ==> #[trigger] final(self).pokemon@[i] == old(self).pokemon@[i]
                &&& spent(
                    old(self).pokemon@[index as int],
                    final(self).pokemon@[index as int],
                    move_index as int,
                )
            } else {
                final(self).pokemon == old(self).pokemon
            },
    {
        if index < self.pokemon.len() {
            self.pokemon[index].spend(move_index);
            proof {
                assert forall|s: int| #[trigger] self.index_at(s) == old(self).index_at(s) by {}
            }
        }
    }

    /// Whether the creature at bench index `new` can be brought into an
    /// active slot: the slot exists and the creature can enter.
    pub open spec fn can_switch(&self, slot: int, new: usize) -> bool {
        0 <= slot < self.active@.len() && self.can_enter(new)
    }

    /// Brings the creature at bench index `new` into an active slot and
    /// marks it as shown. Returns whether that was done and, if the
    /// creature had not been shown, what the other participants see of it.
    /// Nothing changes where it cannot be done.
    pub fn switch_in(
        &mut self,
        slot: usize,
        new: usize,
    ) -> (switched: (bool, Option<RemotePokemon>))
        requires
            old(self).wf(),
        ensures
            final(self).wf(),
            final(self).id == old(self).id,
            switched.0 == old(self).can_switch(slot as int, new),
            if old(self).can_switch(slot as int, new) {
                &&& final(self).active@ == old(self).active@.update(
                    slot as int,
                    Some(ActivePokemon { index: new, queued_move: None }),
                )
                &&& final(self).pokemon@ == old(self).pokemon@.update(
                    new as int,
                    BattlePokemon { known: true, ..old(self).pokemon@[new as int] },
                )
                &&& switched.1 == (if old(self).pokemon@[new as int].known {
                    None
                } else {
                    Some(old(self).pokemon@[new as int].remote())
                })
            } else {
                &&& final(self).active == old(self).active
                &&& final(self).pokemon == old(self).pokemon
                &&& switched.1 is None
            },
    {
        if slot < self.active.len() && self.may_enter(new) {
            self.replace(slot, new);
            let unknown = self.know(new);
            (true, unknown)
        } else {
            (false, None)
        }
    }

    /// Applies the actions of an item to the creature in an active slot.
    /// Returns whether the slot held a creature; nothing changes where it
    /// did not.
    pub fn use_item_on(&mut self, slot: usize, actions: &Vec<ItemAction>) -> (used: bool)
        requires
            old(self).wf(),
        ensures
            final(self).wf(),
            final(self).id == old(self).id,
            final(self).active == old(self).active,
            used == (old(self).index_at(slot as int) is Some),
            match old(self).index_at(slot as int) {
                Some(index) => final(self).pokemon@ == old(self).pokemon@.update(
                    index as int,
                    old(self).pokemon@[index as int].after_items(actions@),
                ),
                None => final(self).pokemon == old(self).pokemon,
            },
    {
        match self.index(slot) {
            Some(index) => {
                self.pokemon[index].use_item_actions(actions);
                proof {
                    assert forall|s: int| #[trigger] self.index_at(s) == old(self).index_at(s) by {}
                }
                true
            },
            None => false,
        }
    }

    /// Takes the creature in an active slot out of the party: it leaves
    /// its slot and the bench, and the bench indices in the other slots are
    /// brought up to date. Returns the creature. Nothing changes where the
    /// slot is empty.
    pub fn capture(&mut self, slot: usize) -> (captured: Option<BattlePokemon>)
        requires
            old(self).wf(),
        ensures
            final(self).wf(),
            final(self).id == old(self).id,
            match old(self).index_at(slot as int) {
                Some(index) => {
                    &&& final(self).active@ == slots_without(
                        old(self).active@,
                        slot as int,
                        index as int,
                    )
                    &&& final(self).pokemon@ == old(self).pokemon@.remove(index as int)
                    &&& captured == Some(old(self).pokemon@[index as int])
                },
                None => {
                    &&& final(self).active == old(self).active
                    &&& final(self).pokemon == old(self).pokemon
                    &&& captured is None
                },
            },
    {
        match self.index(slot) {
            Some(index) => {
                let creature = self.pokemon.remove(index);
                let mut at: usize = 0;
                while at < self.active.len()
                    invariant
                        at <= self.active@.len(),
                        self.id == old(self).id,
                        self.pokemon@ == old(self).pokemon@.remove(index as int),
                        self.active@.len() == old(self).active@.len(),
                        slot < self.active@.len(),
                        forall|s: int|
                            0 <= s < at ==> #[trigger] self.active@[s] == slots_without(
                                old(self).active@,
                                slot as int,
                                index as int,
                            )[s],
                        forall|s: int|
                            at <= s < self.active@.len() ==> #[trigger] self.active@[s] == old(
                                self,
                            ).active@[s],
                    decreases self.active@.len() - at,
                {
                    if at == slot {
                        self.active[at] = None;
                    } else {
                        match self.active[at] {
                            Some(held) => {
                                if held.index > index {
                                    self.active[at] = Some(
                                        ActivePokemon {
                                            index: held.index - 1,
                                            queued_move: held.queued_move,
                                        },
                                    );
                                }
                            },
                            None => {},
                        }
                    }
                    at += 1;
                }
                proof {
                    assert(self.active@ =~= slots_without(
                        old(self).active@,
                        slot as int,
                        index as int,
                    ));
                    old(self).lemma_capture_keeps_wf(*self, slot as int);
                }
                Some(creature)
            },
            None => None,
        }
    }

    /// A party without the creature that stood in one of its slots keeps
    /// the party invariant.
    pub proof fn lemma_capture_keeps_wf(&self, after: BattleParty, slot: int)
        requires
            self.wf(),
            self.index_at(slot) is Some,
            after.active@ == slots_without(self.active@, slot, self.index_at(slot)->0 as int),
            after.pokemon@ == self.pokemon@.remove(self.index_at(slot)->0 as int),
        ensures
            after.wf(),
    {
        let gone = self.index_at(slot)->0 as int;
        assert forall|s: int| (#[trigger] after.index_at(s)) is Some implies ({
            let held = after.index_at(s)->0;
            &&& s != slot
            &&& self.index_at(s) is Some
            &&& self.index_at(s)->0 != gone
            &&& held == (if self.index_at(s)->0 > gone {
                self.index_at(s)->0 - 1
            } else {
                self.index_at(s)->0 as int
            })
            &&& held < after.pokemon@.len()
            &&& after.pokemon@[held as int] == self.pokemon@[self.index_at(s)->0 as int]
        }) by {}
    }

    /// Takes a creature onto the bench, behind those that are there.
    pub fn adopt(&mut self, creature: BattlePokemon)
        requires
            old(self).wf(),
            creature.wf(),
            old(self).pokemon@.len() < usize::MAX,
        ensures
            final(self).wf(),
            final(self).id == old(self).id,
            final(self).active == old(self).active,
            final(self).pokemon@ == old(self).pokemon@.push(creature),
    {
        self.pokemon.push(creature);
        proof {
            assert forall|s: int| #[trigger] self.index_at(s) == old(self).index_at(s) by {}
        }
    }

    /// Clears the flinch of the creature in an active slot. Returns whether
    /// the slot held a creature that flinched; nothing changes where it
    /// did not.
    pub fn take_flinch(&mut self, slot: usize) -> (flinched: bool)
        requires
            old(self).wf(),
        ensures
            final(self).wf(),
            final(self).id == old(self).id,
            final(self).active == old(self).active,
            match old(self).index_at(slot as int) {
                Some(index) => {
                    &&& flinched == old(self).pokemon@[index as int].flinch
                    &&& final(self).pokemon@ == old(self).pokemon@.update(
                        index as int,
                        BattlePokemon { flinch: false, ..old(self).pokemon@[index as int] },
                    )
                },
                None => !flinched,
            },
            !flinched ==> final(self).pokemon == old(self).pokemon,
    {
        match self.index(slot) {
            Some(index) => {
                let flinched: bool = self.pokemon[index].flinch;
                if !flinched {
                    return false;
                }
                self.pokemon[index].flinch = false;
                proof {
                    assert forall|s: int| #[trigger] self.index_at(s) == old(self).index_at(s) by {}
                }
                flinched
            },
            None => false,
        }
    }

    /// Clears the flinch of every creature of the party.
    pub fn clear_flinches(&mut self)
        requires
            old(self).wf(),
        ensures
            final(self).wf(),
            final(self).id == old(self).id,
            final(self).active == old(self).active,
            final(self).pokemon@.len() == old(self).pokemon@.len(),
            forall|i: int|
                0 <= i < old(self).pokemon@.len() ==> #[trigger] final(self).pokemon@[i] == (
                BattlePokemon { flinch: false, ..old(self).pokemon@[i] }),
    {
        let mut i: usize = 0;
        while i < self.pokemon.len()
            invariant
                i <= self.pokemon.len(),
                self.id == old(self).id,
                self.active == old(self).active,
                self.pokemon@.len() == old(self).pokemon@.len(),
                forall|k: int|
                    0 <= k < i ==> #[trigger] self.pokemon@[k] == (BattlePokemon {
                        flinch: false,
                        ..old(self).pokemon@[k]
                    }),
                forall|k: int|
                    i <= k < self.pokemon@.len() ==> #[trigger] self.pokemon@[k]
                        == old(self).pokemon@[k],
            decreases self.pokemon.len() - i,
        {
            self.pokemon[i].flinch = false;
            i += 1;
        }
        proof {
            assert forall|s: int| #[trigger] self.index_at(s) == old(self).index_at(s) by {}
        }
    }

    /// Lets the creature at a bench index learn the move `id` of its
    /// backlog. Nothing happens where the bench holds no such creature.
    pub fn learn(&mut self, bench: usize, id: MoveId, index: Option<usize>)
        requires
            old(self).wf(),
        ensures
            final(self).wf(),
            final(self).id == old(self).id,
            final(self).active == old(self).active,
            if bench < old(self).pokemon@.len() {
                &&& final(self).pokemon@.len() == old(self).pokemon@.len()
                &&& forall|i: int|
                    0 <= i < old(self).pokemon@.len() && i != bench
                        ==> #[trigger] final(self).pokemon@[i] == old(self).pokemon@[i]
                &&& learned(
                    old(self).pokemon@[bench as int],
                    final(self).pokemon@[bench as int],
                    id,
                    index,
                )
            } else {
                final(self).pokemon == old(self).pokemon
            },
    {
        if bench < self.pokemon.len() {
            self.pokemon[bench].learn(id, index);
            proof {
                assert forall|s: int| #[trigger] self.index_at(s) == old(self).index_at(s) by {}
            }
        }
    }

    /// A party of the participant `id` with `active` slots, formed from a
    /// bench: the first available creatures of the bench stand in the
    /// slots.
    pub fn new(id: PlayerId, active: usize, pokemon: Vec<BattlePokemon>) -> (party: BattleParty)
        requires
            forall|i: int| 0 <= i < pokemon@.len() ==> (#[trigger] pokemon@[i]).wf(),
        ensures
            party.wf(),
            party.id == id,
            party.pokemon == pokemon,
            party.active@.len() == active,
            first_available(pokemon@, party.active@),
    {
        let mut slots: Vec<Option<ActivePokemon>> = Vec::new();
        let mut index: usize = 0;
        while index < pokemon.len() && slots.len() < active
            invariant
                index <= pokemon@.len(),
                slots@.len() <= active,
                slots@.len() == available_before(pokemon@, index as int),
                forall|s: int|
                    0 <= s < slots@.len() ==> (#[trigger] slots@[s] matches Some(held)
                        && held.index < index && held.queued_move is None
                        && pokemon@[held.index as int].is_available() && available_before(
                        pokemon@,
                        held.index as int,
                    ) == s),
                forall|i: int|
                    0 <= i < index && (#[trigger] pokemon@[i]).is_available() ==> available_before(
                        pokemon@,
                        i,
                    ) < slots@.len() && slots@[available_before(pokemon@, i) as int] == Some(
                        ActivePokemon { index: i as usize, queued_move: None },
                    ),
            decreases pokemon@.len() - index,
        {
            if pokemon[index].available() {
                slots.push(Some(ActivePokemon { index, queued_move: None }));
            }
            index += 1;
        }
        let ghost filled = slots@.len();
        proof {
            assert forall|i: int|
                0 <= i < pokemon@.len() && (#[trigger] pokemon@[i]).is_available()
                    && available_before(pokemon@, i) < active implies i < index by {
                if i >= index {
                    lemma_available_before_rises(pokemon@, index as int, i);
                }
            }
            lemma_available_before_rises(pokemon@, index as int, pokemon@.len() as int);
        }
        while slots.len() < active
            invariant
                slots@.len() <= active,
                filled <= slots@.len(),
                forall|s: int|
                    0 <= s < filled ==> (#[trigger] slots@[s] matches Some(held)
                        && held.index < pokemon@.len() && held.queued_move is None
                        && pokemon@[held.index as int].is_available() && available_before(
                        pokemon@,
                        held.index as int,
                    ) == s),
                forall|i: int|
                    0 <= i < pokemon@.len() && (#[trigger] pokemon@[i]).is_available()
                        && available_before(pokemon@, i) < active ==> available_before(
                        pokemon@,
                        i,
                    ) < filled && slots@[available_before(pokemon@, i) as int] == Some(
                        ActivePokemon { index: i as usize, queued_move: None },
                    ),
                forall|s: int| filled <= s < slots@.len() ==> (#[trigger] slots@[s]) is None,
            decreases active - slots@.len(),
        {
            slots.push(None);
        }
        let party = BattleParty { id, active: slots, pokemon };
        party
    }

    /// Applies one outcome to the creature at a bench index.
    pub fn apply_at(&mut self, index: usize, result: MoveResult) -> (record: Option<
        ClientMoveAction,
    >)
        requires
            old(self).wf(),
            index < old(self).pokemon@.len(),
        ensures
            final(self).id == old(self).id,
            final(self).active == old(self).active,
            final(self).pokemon@ == old(self).pokemon@.update(
                index as int,
                old(self).pokemon@[index as int].after(result),
            ),
            record == final(self).pokemon@[index as int].record(result),
            final(self).pokemon@[index as int].wf(),
    {
        let record = self.pokemon[index].apply(result);
        record
    }
}

} // verus!
