//! A participant that chooses at random.
//!
//! It is fed the messages that the battle sends to it and queues the
//! messages that a participant would send: a random usable move for each of
//! its creatures when asked to select, a random replacement for each of its
//! creatures that fainted, and the word that it has seen the round.

use crate::message::{ClientMessage, ServerMessage};
use crate::moves::{BattleMove, ClientMove, ClientMoveAction, MoveTarget};
use crate::party::RemoteParty;
use crate::pokemon::{BattlePokemon, Indexed, PlayerId, PokemonIdentifier, RemotePokemon};
use crate::random::roll_index;
use rand::rngs::StdRng;
use vstd::prelude::*;

verus! {

/// A participant that chooses at random.
pub struct BattlePlayerAi {
    random: StdRng,
    id: PlayerId,
    party: Vec<BattlePokemon>,
    active: Vec<Option<usize>>,
    remotes: Vec<RemoteParty>,
    messages: Vec<ClientMessage>,
}

/// Whether the move in slot `index` of a creature's move set has a use
/// left.
pub open spec fn is_usable(creature: BattlePokemon, index: int) -> bool {
    0 <= index < creature.moves@.len() && creature.moves@[index].1 != 0
}

/// Whether a creature has a move with a use left.
pub open spec fn has_usable(creature: BattlePokemon) -> bool {
    exists|index: int| is_usable(creature, index)
}

/// Whether `index` is a choice of move for a creature: one with a use
/// left, if there is one, and the first slot of the move set if there is
/// none.
pub open spec fn is_choice(creature: BattlePokemon, index: usize) -> bool {
    if has_usable(creature) {
        is_usable(creature, index as int)
    } else {
        index == 0
    }
}

/// Whether `target` is what the participant `id` aims a move of the given
/// kind at, used from its active slot `slot` of `slots` slots: a slot of
/// another party it knows for a move aimed at one creature or one
/// opponent, another slot of its own for one aimed at an ally, a slot of
/// its own for one aimed at the user or an ally, and nothing for any other
/// move. Nothing is aimed at where there is no such slot.
pub open spec fn is_aim(
    kind: MoveTarget,
    id: PlayerId,
    slot: usize,
    slots: nat,
    remotes: Seq<RemoteParty>,
    target: Option<PokemonIdentifier>,
) -> bool {
    match kind {
        MoveTarget::Any | MoveTarget::Opponent => match target {
            Some(target) => exists|k: int|
                0 <= k < remotes.len() && (#[trigger] remotes[k]).id == target.0 && target.1
                    < remotes[k].active@.len(),
            None => forall|k: int|
                0 <= k < remotes.len() ==> (#[trigger] remotes[k]).active@.len() == 0,
        },
        MoveTarget::Ally => match target {
            Some(target) => target.0 == id && target.1 != slot && target.1 < slots,
            None => slots < 2 || slot >= slots,
        },
        MoveTarget::UserOrAlly => match target {
            Some(target) => target.0 == id && target.1 < slots,
            None => slots == 0,
        },
        _ => target is None,
    }
}

/// Whether `message` is a selection for the active slot `slot` of a
/// participant: it queues a move for the slot, the move is a choice for the
/// creature in the slot, and the target is what the move is aimed at.
pub open spec fn is_selection(
    id: PlayerId,
    bench: Seq<BattlePokemon>,
    slots: Seq<Option<usize>>,
    remotes: Seq<RemoteParty>,
    slot: int,
    message: ClientMessage,
) -> bool {
    &&& slots[slot] matches Some(index) && index < bench.len() && (
    message matches ClientMessage::Move(at, BattleMove::Move(choice, target)) && at == slot
        && is_choice(bench[index as int], choice) && (if choice < bench[index as int].moves@.len() {
        is_aim(
            bench[index as int].moves@[choice as int].0.target,
            id,
            slot as usize,
            slots.len(),
            remotes,
            target,
        )
    } else {
        target is None
    }))
}

/// Whether the active slot `slot` holds a creature of the bench.
pub open spec fn is_manned(
    bench: Seq<BattlePokemon>,
    slots: Seq<Option<usize>>,
    slot: int,
) -> bool {
    slots[slot] matches Some(index) && index < bench.len()
}

/// Whether `messages` are the selections for the slots below `upto` that
/// hold a creature, one for each, in the order of the slots.
pub open spec fn selections(
    id: PlayerId,
    bench: Seq<BattlePokemon>,
    slots: Seq<Option<usize>>,
    remotes: Seq<RemoteParty>,
    upto: int,
    messages: Seq<ClientMessage>,
) -> bool
    decreases upto,
{
    if upto <= 0 {
        messages.len() == 0
    } else if is_manned(bench, slots, upto - 1) {
        &&& messages.len() > 0
        &&& selections(id, bench, slots, remotes, upto - 1, messages.drop_last())
        &&& is_selection(id, bench, slots, remotes, upto - 1, messages.last())
    } else {
        selections(id, bench, slots, remotes, upto - 1, messages)
    }
}

/// A participant that chooses at random, as contracts speak of it.
pub struct AiView {
    /// The identifier that the battle gave the participant.
    pub id: PlayerId,
    /// The creatures of the participant.
    pub bench: Seq<BattlePokemon>,
    /// The bench index in each of the participant's active slots.
    pub slots: Seq<Option<usize>>,
    /// What the participant knows of the other parties.
    pub known: Seq<RemoteParty>,
    /// The messages that the participant has queued, oldest first.
    pub queued: Seq<ClientMessage>,
}

/// Whether a record shows a creature left without health.
pub open spec fn shows_faint(action: ClientMoveAction) -> bool {
    match action {
        ClientMoveAction::SetDamage(damage) => damage.hp.hp == 0,
        ClientMoveAction::SetHP(hp) => hp.hp == 0,
        _ => false,
    }
}

/// The bench after the creature in the active slot `slot` was noted as
/// fainted: that creature is left without health.
pub open spec fn bench_after_faint(
    bench: Seq<BattlePokemon>,
    slots: Seq<Option<usize>>,
    slot: int,
) -> Seq<
    BattlePokemon,
> {
    if 0 <= slot < slots.len() && (slots[slot] matches Some(index) && index < bench.len()) {
        bench.update(slots[slot]->0 as int, BattlePokemon { hp: 0, ..bench[slots[slot]->0 as int] })
    } else {
        bench
    }
}

/// Whether the creature at bench index `index` can replace one that
/// fainted: it has health left and stands in no slot.
pub open spec fn can_replace(
    bench: Seq<BattlePokemon>,
    slots: Seq<Option<usize>>,
    index: usize,
) -> bool {
    index < bench.len() && bench[index as int].hp != 0 && !slots.contains(Some(index))
}

/// Whether `after` is the participant `before` once it has noted that the
/// creature in its active slot `slot` fainted: the creature is left
/// without health and, if some creature can replace it, one that can is
/// put into the slot and the request to do so is queued. Nothing changes
/// where there is no such slot.
pub open spec fn replaced(before: AiView, after: AiView, slot: usize) -> bool {
    if slot >= before.slots.len() {
        after == before
    } else {
        let bench = bench_after_faint(before.bench, before.slots, slot as int);
        &&& after.id == before.id
        &&& after.known == before.known
        &&& after.bench == bench
        &&& if exists|index: usize| can_replace(bench, before.slots, index) {
            exists|index: usize|
                {
                    &&& #[trigger] can_replace(bench, before.slots, index)
                    &&& after.slots == before.slots.update(slot as int, Some(index))
                    &&& after.queued == before.queued.push(
                        ClientMessage::ReplaceFaint(slot, index),
                    )
                }
        } else {
            after.slots == before.slots && after.queued == before.queued
        }
    }
}

/// Whether `after` is the participant `before` once it has taken note of
/// one record: a record that shows one of its own creatures without health
/// has the creature replaced; any other changes nothing.
pub open spec fn noted(
    before: AiView,
    after: AiView,
    at: PokemonIdentifier,
    action: ClientMoveAction,
) -> bool {
    if shows_faint(action) && at.0 == before.id {
        replaced(before, after, at.1)
    } else {
        after == before
    }
}

/// Whether `after` is the participant `before` once it has taken note of
/// the records `actions`, one after the other.
pub open spec fn noted_all(
    before: AiView,
    after: AiView,
    actions: Seq<Indexed<ClientMoveAction>>,
) -> bool
    decreases actions.len(),
{
    if actions.len() == 0 {
        after == before
    } else {
        exists|mid: AiView|
            noted_all(before, mid, actions.drop_last()) && #[trigger] noted(
                mid,
                after,
                actions.last().0,
                actions.last().1,
            )
    }
}

/// Whether `after` is the participant `before` once it has taken note of
/// one entry of a round: of the records of a move, and of nothing else.
pub open spec fn entry_watched(before: AiView, after: AiView, entry: ClientMove) -> bool {
    match entry {
        ClientMove::Move(_, _, actions) => noted_all(before, after, actions@),
        _ => after == before,
    }
}

/// Whether `after` is the participant `before` once it has taken note of
/// the entries `log` of a round, one after the other.
pub open spec fn watched(before: AiView, after: AiView, log: Seq<Indexed<ClientMove>>) -> bool
    decreases log.len(),
{
    if log.len() == 0 {
        after == before
    } else {
        exists|mid: AiView|
            watched(before, mid, log.drop_last()) && #[trigger] entry_watched(
                mid,
                after,
                log.last().1,
            )
    }
}

/// The slots of a party after it was told that the slot `slot` holds the
/// creature at bench index `new`.
pub open spec fn slots_after_replace(slots: Seq<Option<usize>>, slot: usize, new: usize) -> Seq<
    Option<usize>,
> {
    if slot < slots.len() {
        slots.update(slot as int, Some(new))
    } else {
        slots
    }
}

/// Whether `after` is what is known of the other parties once the
/// participant `id` was told that the slot that `at` names holds the
/// creature at bench index `new`: the slots of the party of `at` are
/// brought up to date, unless that party is the participant's own.
pub open spec fn known_after_replace(
    before: Seq<RemoteParty>,
    after: Seq<RemoteParty>,
    id: PlayerId,
    at: PokemonIdentifier,
    new: usize,
) -> bool {
    &&& after.len() == before.len()
    &&& forall|k: int|
        0 <= k < before.len() ==> {
            &&& (#[trigger] after[k]).id == before[k].id
            &&& after[k].pokemon == before[k].pokemon
            &&& after[k].active@ == (if at.0 != id && before[k].id == at.0 {
                slots_after_replace(before[k].active@, at.1, new)
            } else {
                before[k].active@
            })
        }
}

/// Whether `after` is what is known of the other parties once the creature
/// that `at` addresses was shown as `shown`.
pub open spec fn known_after_shown(
    before: Seq<RemoteParty>,
    after: Seq<RemoteParty>,
    at: PokemonIdentifier,
    shown: RemotePokemon,
) -> bool {
    &&& after.len() == before.len()
    &&& forall|k: int|
        0 <= k < before.len() ==> {
            &&& (#[trigger] after[k]).id == before[k].id
            &&& after[k].active == before[k].active
            &&& after[k].pokemon@ == (if before[k].id == at.0 && at.1 < before[k].pokemon@.len() {
                before[k].pokemon@.update(at.1 as int, Some(shown))
            } else {
                before[k].pokemon@
            })
        }
}

/// Whether `after` is what a message of the battle makes of the
/// participant `before`.
///
/// - The beginning of the battle: the identifier, the active slots and
///   the other parties are taken from the view.
/// - The call to select: a selection is queued for every active slot
///   that holds a creature.
/// - A round: the participant's creatures that fainted are replaced as
///   far as they can be, and the word that the round was seen is queued.
/// - A replacement: the slots are brought up to date.
/// - A creature that is shown: it is added to what is known of its
///   party.
/// - Any other message changes nothing.
pub open spec fn answered(before: AiView, after: AiView, message: ServerMessage) -> bool {
    match message {
        ServerMessage::Begin(view) => after == (AiView {
            id: view.id,
            slots: view.active@,
            known: view.remotes@,
            ..before
        }),
        ServerMessage::StartSelecting => {
            &&& after == (AiView { queued: after.queued, ..before })
            &&& after.queued.len() >= before.queued.len()
            &&& after.queued.take(before.queued.len() as int) == before.queued
            &&& selections(
                before.id,
                before.bench,
                before.slots,
                before.known,
                before.slots.len() as int,
                after.queued.skip(before.queued.len() as int),
            )
        },
        ServerMessage::TurnQueue(log) => exists|seen: AiView|
            #[trigger] watched(before, seen, log@) && after == (AiView {
                queued: seen.queued.push(ClientMessage::FinishedTurnQueue),
                ..seen
            }),
        ServerMessage::FaintReplace(at, new) => {
            &&& after == (AiView { slots: after.slots, known: after.known, ..before })
            &&& after.slots == (if at.0 == before.id {
                slots_after_replace(before.slots, at.1, new)
            } else {
                before.slots
            })
            &&& known_after_replace(before.known, after.known, before.id, at, new)
        },
        ServerMessage::AddUnknown(at, shown) => {
            &&& after == (AiView { known: after.known, ..before })
            &&& known_after_shown(before.known, after.known, at, shown)
        },
        _ => after == before,
    }
}

impl View for BattlePlayerAi {
    type V = AiView;

    closed spec fn view(&self) -> AiView {
        AiView {
            id: self.id,
            bench: self.party@,
            slots: self.active@,
            known: self.remotes@,
            queued: self.messages@,
        }
    }
}

impl BattlePlayerAi {
    /// A participant with the given creatures that has not been told of a
    /// battle yet.
    pub fn new(random: StdRng, party: Vec<BattlePokemon>) -> (ai: BattlePlayerAi)
        ensures
            ai@ == (AiView {
                id: 0,
                bench: party@,
                slots: Seq::empty(),
                known: Seq::empty(),
                queued: Seq::empty(),
            }),
    {
        BattlePlayerAi {
            random,
            id: 0,
            party,
            active: Vec::new(),
            remotes: Vec::new(),
            messages: Vec::new(),
        }
    }

    /// Hands over the message that was queued last, if one is queued.
    pub fn receive(&mut self) -> (message: Option<ClientMessage>)
        ensures
            match message {
                Some(message) => old(self)@.queued.len() > 0 && message == old(self)@.queued.last()
                    && final(self)@ == (AiView {
                    queued: old(self)@.queued.drop_last(),
                    ..old(self)@
                }),
                None => old(self)@.queued.len() == 0 && final(self)@ == old(self)@,
            },
    {
        let message = self.messages.pop();
        message
    }

    /// A move for a creature: a random one of those with a use left, and
    /// the first of the move set where none has.
    fn choose_move(&mut self, bench: usize) -> (index: usize)
        requires
            bench < old(self)@.bench.len(),
        ensures
            is_choice(old(self)@.bench[bench as int], index),
            final(self)@ == old(self)@,
    {
        let mut usable: Vec<usize> = Vec::new();
        let mut index: usize = 0;
        while index < self.party[bench].moves.len()
            invariant
                bench < self.party@.len(),
                *self == *old(self),
                index <= self.party@[bench as int].moves@.len(),
                forall|k: int|
                    0 <= k < usable@.len() ==> is_usable(
                        self.party@[bench as int],
                        (#[trigger] usable@[k]) as int,
                    ),
                forall|i: int|
                    0 <= i < index && is_usable(self.party@[bench as int], i) ==> usable@.len()
                        > 0,
            decreases self.party@[bench as int].moves@.len() - index,
        {
            if self.party[bench].moves[index].1 != 0 {
                usable.push(index);
            }
            index += 1;
        }
        if usable.len() > 0 {
            let drawn: usize = roll_index(&mut self.random, usable.len());
            usable[drawn]
        } else {
            0
        }
    }

    /// A target for a move of the given kind, used from the active slot
    /// `slot`.
    fn choose_target(&mut self, kind: MoveTarget, slot: usize) -> (target: Option<
        PokemonIdentifier,
    >)
        ensures
            is_aim(kind, old(self)@.id, slot, old(self)@.slots.len(), old(self)@.known, target),
            final(self)@ == old(self)@,
    {
        match kind {
            MoveTarget::Any | MoveTarget::Opponent => {
                let mut open: Vec<usize> = Vec::new();
                let mut k: usize = 0;
                while k < self.remotes.len()
                    invariant
                        *self == *old(self),
                        k <= self.remotes@.len(),
                        forall|i: int|
                            0 <= i < open@.len() ==> (#[trigger] open@[i]) < self.remotes@.len()
                                && self.remotes@[open@[i] as int].active@.len() > 0,
                        forall|j: int|
                            0 <= j < k && (#[trigger] self.remotes@[j]).active@.len() > 0
                                ==> open@.len() > 0,
                    decreases self.remotes@.len() - k,
                {
                    if self.remotes[k].active.len() > 0 {
                        open.push(k);
                    }
                    k += 1;
                }
                if open.len() > 0 {
                    let drawn: usize = roll_index(&mut self.random, open.len());
                    let party: usize = open[drawn];
                    let at: usize = roll_index(&mut self.random, self.remotes[party].active.len());
                    Some(PokemonIdentifier(self.remotes[party].id, at))
                } else {
                    None
                }
            },
            MoveTarget::Ally => {
                if self.active.len() >= 2 && slot < self.active.len() {
                    let drawn: usize = roll_index(&mut self.random, self.active.len() - 1);
                    let ally: usize = if drawn >= slot {
                        drawn + 1
                    } else {
                        drawn
                    };
                    Some(PokemonIdentifier(self.id, ally))
                } else {
                    None
                }
            },
            MoveTarget::UserOrAlly => {
                if self.active.len() > 0 {
                    let drawn: usize = roll_index(&mut self.random, self.active.len());
                    Some(PokemonIdentifier(self.id, drawn))
                } else {
                    None
                }
            },
            _ => None,
        }
    }

    /// Queues a selection for every active slot that holds a creature.
    fn select(&mut self)
        ensures
            answered(old(self)@, final(self)@, ServerMessage::StartSelecting),
    {
        let ghost start = self.messages@.len() as int;
        let mut slot: usize = 0;
        while slot < self.active.len()
            invariant
                slot <= self.active@.len(),
                self@ == (AiView { queued: self@.queued, ..old(self)@ }),
                start == old(self).messages@.len(),
                self.messages@.len() >= start,
                self.messages@.take(start) == old(self).messages@,
                selections(
                    self.id,
                    self.party@,
                    self.active@,
                    self.remotes@,
                    slot as int,
                    self.messages@.skip(start),
                ),
            decreases self.active@.len() - slot,
        {
            let ghost queued = self.messages@;
            match self.active[slot] {
                Some(index) => {
                    if index < self.party.len() {
                        let choice: usize = self.choose_move(index);
                        let target = if choice < self.party[index].moves.len() {
                            let kind: MoveTarget = self.party[index].moves[choice].0.target;
                            self.choose_target(kind, slot)
                        } else {
                            None
                        };
                        self.messages.push(
                            ClientMessage::Move(slot, BattleMove::Move(choice, target)),
                        );
                        proof {
                            assert(self.messages@.skip(start).drop_last() =~= queued.skip(start));
                        }
                    }
                },
                None => {},
            }
            slot += 1;
        }
    }

    /// Whether the creature at a bench index stands in an active slot.
    fn is_active(&self, index: usize) -> (active: bool)
        ensures
            active == self@.slots.contains(Some(index)),
    {
        let mut slot: usize = 0;
        while slot < self.active.len()
            invariant
                slot <= self.active@.len(),
                forall|s: int| 0 <= s < slot ==> self.active@[s] != Some(index),
            decreases self.active@.len() - slot,
        {
            if self.active[slot] == Some(index) {
                return true;
            }
            slot += 1;
        }
        false
    }

    /// Takes note that the creature in the active slot `slot` has fainted
    /// and, if a creature of the bench with health left stands in no slot,
    /// puts a random one of those into the slot and queues the request to do
    /// so.
    fn replace_fainted(&mut self, slot: usize)
        ensures
            replaced(old(self)@, final(self)@, slot),
    {
        if slot >= self.active.len() {
            return ;
        }
        match self.active[slot] {
            Some(index) => {
                if index < self.party.len() {
                    self.party[index].hp = 0;
                }
            },
            None => {},
        }
        let ghost bench = bench_after_faint(old(self)@.bench, old(self)@.slots, slot as int);
        let mut available: Vec<usize> = Vec::new();
        let mut index: usize = 0;
        while index < self.party.len()
            invariant
                index <= self.party@.len(),
                self@ == (AiView { bench, ..old(self)@ }),
                forall|k: int|
                    0 <= k < available@.len() ==> can_replace(
                        bench,
                        self.active@,
                        #[trigger] available@[k],
                    ),
                forall|i: usize|
                    i < index && #[trigger] can_replace(bench, self.active@, i) ==> available@.len()
                        > 0,
            decreases self.party@.len() - index,
        {
            if self.party[index].hp != 0 && !self.is_active(index) {
                available.push(index);
            }
            index += 1;
        }
        if available.len() > 0 {
            let drawn: usize = roll_index(&mut self.random, available.len());
            let new: usize = available[drawn];
            self.active[slot] = Some(new);
            self.messages.push(ClientMessage::ReplaceFaint(slot, new));
        }
    }

    /// Takes note of a round: every creature of the participant that a
    /// record shows without health is replaced, if it can be, and the word
    /// that the round was seen is queued behind the requests to replace.
    fn watch(&mut self, log: &Vec<Indexed<ClientMove>>)
        ensures
            exists|seen: AiView|
                #[trigger] watched(old(self)@, seen, log@) && final(self)@ == (AiView {
                    queued: seen.queued.push(ClientMessage::FinishedTurnQueue),
                    ..seen
                }),
    {
        let mut entry: usize = 0;
        while entry < log.len()
            invariant
                entry <= log@.len(),
                watched(old(self)@, self@, log@.take(entry as int)),
            decreases log@.len() - entry,
        {
            let ghost outer = self@;
            match &log[entry].1 {
                ClientMove::Move(_, _, actions) => {
                    let mut record: usize = 0;
                    while record < actions.len()
                        invariant
                            record <= actions@.len(),
                            noted_all(outer, self@, actions@.take(record as int)),
                        decreases actions@.len() - record,
                    {
                        let ghost inner = self@;
                        let at: PokemonIdentifier = actions[record].0;
                        let fainted: bool = match actions[record].1 {
                            ClientMoveAction::SetDamage(damage) => damage.hp.is_zero(),
                            ClientMoveAction::SetHP(hp) => hp.is_zero(),
                            _ => false,
                        };
                        if fainted && at.0 == self.id {
                            self.replace_fainted(at.1);
                        }
                        proof {
                            let done = actions@.take(record + 1);
                            assert(done.drop_last() =~= actions@.take(record as int));
                            assert(noted(inner, self@, done.last().0, done.last().1));
                        }
                        record += 1;
                    }
                    assert(actions@.take(actions@.len() as int) =~= actions@);
                },
                _ => {},
            }
            proof {
                let done = log@.take(entry + 1);
                assert(done.drop_last() =~= log@.take(entry as int));
                assert(entry_watched(outer, self@, done.last().1));
            }
            entry += 1;
        }
        assert(log@.take(log@.len() as int) =~= log@);
        self.messages.push(ClientMessage::FinishedTurnQueue);
    }

    /// Takes note that the active slot that `at` names holds the creature
    /// at bench index `new`.
    fn note_replace(&mut self, at: PokemonIdentifier, new: usize)
        ensures
            answered(old(self)@, final(self)@, ServerMessage::FaintReplace(at, new)),
    {
        if at.0 == self.id {
            if at.1 < self.active.len() {
                self.active[at.1] = Some(new);
            }
        } else {
            let mut k: usize = 0;
            while k < self.remotes.len()
                invariant
                    k <= self.remotes@.len(),
                    at.0 != self.id,
                    self@ == (AiView { known: self@.known, ..old(self)@ }),
                    self.remotes@.len() == old(self).remotes@.len(),
                    forall|j: int|
                        0 <= j < k ==> {
                            &&& (#[trigger] self.remotes@[j]).id == old(self).remotes@[j].id
                            &&& self.remotes@[j].pokemon == old(self).remotes@[j].pokemon
                            &&& self.remotes@[j].active@ == (if old(self).remotes@[j].id == at.0 {
                                slots_after_replace(old(self).remotes@[j].active@, at.1, new)
                            } else {
                                old(self).remotes@[j].active@
                            })
                        },
                    forall|j: int|
                        k <= j < self.remotes@.len() ==> #[trigger] self.remotes@[j]
                            == old(self).remotes@[j],
                decreases self.remotes@.len() - k,
            {
                if self.remotes[k].id == at.0 && at.1 < self.remotes[k].active.len() {
                    self.remotes[k].active[at.1] = Some(new);
                }
                k += 1;
            }
        }
    }

    /// Takes note of a creature of another party that was shown.
    fn note_unknown(&mut self, at: PokemonIdentifier, shown: RemotePokemon)
        ensures
            answered(old(self)@, final(self)@, ServerMessage::AddUnknown(at, shown)),
    {
        let mut k: usize = 0;
        while k < self.remotes.len()
            invariant
                k <= self.remotes@.len(),
                self@ == (AiView { known: self@.known, ..old(self)@ }),
                self.remotes@.len() == old(self).remotes@.len(),
                forall|j: int|
                    0 <= j < k ==> {
                        &&& (#[trigger] self.remotes@[j]).id == old(self).remotes@[j].id
                        &&& self.remotes@[j].active == old(self).remotes@[j].active
                        &&& self.remotes@[j].pokemon@ == (if old(self).remotes@[j].id == at.0
                            && at.1 < old(self).remotes@[j].pokemon@.len() {
                            old(self).remotes@[j].pokemon@.update(at.1 as int, Some(shown))
                        } else {
                            old(self).remotes@[j].pokemon@
                        })
                    },
                forall|j: int|
                    k <= j < self.remotes@.len() ==> #[trigger] self.remotes@[j]
                        == old(self).remotes@[j],
            decreases self.remotes@.len() - k,
        {
            if self.remotes[k].id == at.0 && at.1 < self.remotes[k].pokemon.len() {
                self.remotes[k].pokemon[at.1] = Some(shown);
            }
            k += 1;
        }
    }

    /// Takes a message from the battle and queues what the participant
    /// answers.
    pub fn send(&mut self, message: ServerMessage)
        ensures
            answered(old(self)@, final(self)@, message),
    {
        match message {
            ServerMessage::Begin(view) => {
                self.id = view.id;
                self.active = view.active;
                self.remotes = view.remotes;
            },
            ServerMessage::StartSelecting => {
                self.select();
            },
            ServerMessage::TurnQueue(log) => {
                self.watch(&log);
            },
            ServerMessage::FaintReplace(at, new) => {
                self.note_replace(at, new);
            },
            ServerMessage::AddUnknown(at, shown) => {
                self.note_unknown(at, shown);
            },
            _ => {},
        }
    }
}

} // verus!
