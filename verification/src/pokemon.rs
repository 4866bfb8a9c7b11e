//! Creatures in battle and the identifiers that address them.

use crate::ailment::{Ailment, LiveAilment};
use crate::data::BattleType;
use crate::moves::{
    BaseStat, ClientDamage, ClientMoveAction, Experience, Health, HealthPercent, Level, MoveCancel,
    MoveData, MoveId, MoveResult, OwnedMove,
};
use crate::stat::{
    lemma_change_keeps_bounds, BattleStatType, Stage, StatStages, MAX_STAGE, MIN_STAGE,
};
use firecore_pokedex::types::PokemonType;
use vstd::prelude::*;

verus! {

/// The stable identifier of a participant.
pub type PlayerId = u64;

/// Addresses a creature: the participant it belongs to and a position in
/// that participant's party.
#[derive(Clone, Copy, Debug, PartialEq, Eq, Structural)]
pub struct PokemonIdentifier(pub PlayerId, pub usize);

impl PokemonIdentifier {
    /// The participant.
    pub fn team(&self) -> (team: PlayerId)
        ensures
            team == self.0,
    {
        self.0
    }

    /// The position in the participant's party.
    pub fn index(&self) -> (index: usize)
        ensures
            index == self.1,
    {
        self.1
    }
}

/// A value paired with the creature it is about.
#[derive(Debug)]
pub struct Indexed<T>(pub PokemonIdentifier, pub T);

/// How many moves a creature can know.
pub const MOVESET_SIZE: usize = 4;

/// How fast a species gains levels.
#[derive(Clone, Copy, Debug, PartialEq, Eq, Structural)]
pub enum GrowthRate {
    Slow,
    Fast,
    Medium,
    MediumSlow,
    FastThenVerySlow,
    SlowThenVeryFast,
}

/// A move that a species learns at a level.
#[derive(Clone, Copy, Debug)]
pub struct LearnableMove(pub Level, pub MoveData);

/// What the other participants see of a creature.
#[derive(Clone, Copy, Debug)]
pub struct RemotePokemon {
    pub species: u16,
    pub level: Level,
    pub hp: HealthPercent,
    pub ailment: Option<LiveAilment>,
}

/// A creature in battle: what its species and level give it, and the state
/// that the battle changes.
#[derive(Debug)]
pub struct BattlePokemon {
    pub species: u16,
    pub primary: PokemonType,
    pub secondary: Option<PokemonType>,
    pub level: Level,
    pub hp: Health,
    pub max_hp: Health,
    pub attack: BaseStat,
    pub defense: BaseStat,
    pub sp_attack: BaseStat,
    pub sp_defense: BaseStat,
    pub speed: BaseStat,
    /// The experience that the species yields, before the level is counted.
    pub base_exp: u16,
    pub growth: GrowthRate,
    pub experience: Experience,
    pub ailment: Option<LiveAilment>,
    pub stages: StatStages,
    /// Set by a flinching hit; cancels the creature's next action.
    pub flinch: bool,
    pub moves: Vec<OwnedMove>,
    /// The moves the species learns, by level.
    pub learnset: Vec<LearnableMove>,
    /// Moves the creature may learn once its participant says where.
    pub learnable_moves: Vec<MoveData>,
    /// Whether the other participants have been shown the creature.
    pub known: bool,
}

/// The health left after `damage`: never below zero.
pub open spec fn health_after_damage(hp: Health, damage: Health) -> Health {
    if damage >= hp {
        0
    } else {
        (hp - damage) as Health
    }
}

/// The health after `amount` is added, or taken where it is negative:
/// never below zero and never above `max_hp`.
pub open spec fn health_after_heal(hp: Health, max_hp: Health, amount: int) -> Health {
    if hp + amount <= 0 {
        0
    } else if hp + amount >= max_hp {
        max_hp
    } else {
        (hp + amount) as Health
    }
}

/// A statistic under a stage: multiplied by `(2 + stage) / 2` for a raised
/// stage and by `2 / (2 - stage)` for a lowered one, rounded down, and held
/// to the range of a statistic.
pub open spec fn staged_stat(base: BaseStat, stage: Stage) -> BaseStat {
    let up: int = if stage > 0 {
        2 + stage
    } else {
        2
    };
    let down: int = if stage < 0 {
        2 - stage
    } else {
        2
    };
    let value: int = (base * up) / down;
    if value > BaseStat::MAX {
        BaseStat::MAX
    } else {
        value as BaseStat
    }
}

/// The value of a statistic under a stage.
pub fn effective_stat(base: BaseStat, stage: Stage) -> (value: BaseStat)
    requires
        MIN_STAGE <= stage <= MAX_STAGE,
    ensures
        value == staged_stat(base, stage),
{
    let up: u32 = if stage > 0 {
        (2 + stage) as u32
    } else {
        2
    };
    let down: u32 = if stage < 0 {
        (2 - stage) as u32
    } else {
        2
    };
    assert(base * up <= 65535 * 8) by (nonlinear_arith)
        requires
            base <= 65535,
            up <= 8,
    ;
    let value: u32 = (base as u32 * up) / down;
    if value > BaseStat::MAX as u32 {
        BaseStat::MAX
    } else {
        value as BaseStat
    }
}

/// The experience that defeating a creature of a species with the given
/// yield gives at `level`: the product divided by seven, rounded down.
pub open spec fn species_exp(base_exp: u16, level: Level) -> Experience {
    ((base_exp * level) / 7) as Experience
}

/// The experience that a battle of kind `type_` gives for it: all of it
/// against a trainer, a third less against a wild creature.
pub open spec fn battle_exp(base_exp: u16, level: Level, type_: BattleType) -> Experience {
    let full = species_exp(base_exp, level);
    if type_ == BattleType::Wild {
        (full - full / 3) as Experience
    } else {
        full
    }
}

impl BattlePokemon {
    /// Health within its bound and stages within theirs.
    pub open spec fn wf(&self) -> bool {
        &&& self.hp <= self.max_hp
        &&& self.stages.wf()
    }

    /// Whether the creature has no health left.
    pub open spec fn is_fainted(&self) -> bool {
        self.hp == 0
    }

    /// Whether the creature can stand in an active slot: it has health
    /// left.
    pub open spec fn is_available(&self) -> bool {
        self.hp != 0
    }

    /// Whether the creature carries an ailment.
    pub open spec fn is_afflicted(&self) -> bool {
        self.ailment is Some
    }

    /// The health as a share of full health.
    pub open spec fn health_percent(&self) -> HealthPercent {
        HealthPercent { hp: self.hp, max_hp: self.max_hp }
    }

    /// What the other participants see of the creature.
    pub open spec fn remote(&self) -> RemotePokemon {
        RemotePokemon {
            species: self.species,
            level: self.level,
            hp: self.health_percent(),
            ailment: self.ailment,
        }
    }

    /// Whether the creature and its state are well formed.
    pub fn is_valid(&self) -> (valid: bool)
        ensures
            valid == self.wf(),
    {
        self.hp <= self.max_hp && self.stages.is_valid()
    }

    /// Whether the creature has no health left.
    pub fn fainted(&self) -> (fainted: bool)
        ensures
            fainted == self.is_fainted(),
    {
        self.hp == 0
    }

    /// Whether the creature can stand in an active slot.
    pub fn available(&self) -> (available: bool)
        ensures
            available == self.is_available(),
    {
        self.hp != 0
    }

    /// The health as a share of full health.
    pub fn percent_hp(&self) -> (percent: HealthPercent)
        ensures
            percent == self.health_percent(),
    {
        HealthPercent { hp: self.hp, max_hp: self.max_hp }
    }

    /// What the other participants see of the creature.
    pub fn as_remote(&self) -> (remote: RemotePokemon)
        ensures
            remote == self.remote(),
    {
        RemotePokemon {
            species: self.species,
            level: self.level,
            hp: self.percent_hp(),
            ailment: self.ailment,
        }
    }

    /// The speed that orders the creature's move: its speed statistic under
    /// the stage of that statistic.
    pub open spec fn effective_speed(&self) -> BaseStat {
        staged_stat(self.speed, self.stages.speed)
    }

    /// The speed that orders the creature's move.
    pub fn speed(&self) -> (speed: BaseStat)
        requires
            self.wf(),
        ensures
            speed == self.effective_speed(),
    {
        proof {
            assert(self.stages.stage(BattleStatType::Speed) == self.stages.speed);
        }
        effective_stat(self.speed, self.stages.speed)
    }

    /// The experience that defeating the creature gives in a battle of kind
    /// `type_`.
    pub fn battle_exp_from(&self, type_: BattleType) -> (experience: Experience)
        ensures
            experience == battle_exp(self.base_exp, self.level, type_),
    {
        assert(self.base_exp * self.level <= 65535 * 255) by (nonlinear_arith)
            requires
                self.base_exp <= 65535,
                self.level <= 255,
        ;
        let full: u32 = (self.base_exp as u32 * self.level as u32) / 7;
        match type_ {
            BattleType::Wild => full - full / 3,
            _ => full,
        }
    }
}

/// The experience a creature of the given growth needs to leave `level`.
/// It is what `GrowthRate::max_exp` of the pokedex returns.
pub uninterp spec fn growth_max_exp(growth: GrowthRate, level: Level) -> Experience;

/// Calls `GrowthRate::max_exp` of the pokedex on the same growth rate and
/// level. The result is a function of the two alone; the contract names it
/// and says nothing of its value.
#[verifier::external_body]
fn max_exp(growth: GrowthRate, level: Level) -> (needed: Experience)
    ensures
        needed == growth_max_exp(growth, level),
{
    let growth = match growth {
        GrowthRate::Slow => firecore_pokedex::pokemon::data::GrowthRate::Slow,
        GrowthRate::Fast => firecore_pokedex::pokemon::data::GrowthRate::Fast,
        GrowthRate::Medium => firecore_pokedex::pokemon::data::GrowthRate::Medium,
        GrowthRate::MediumSlow => firecore_pokedex::pokemon::data::GrowthRate::MediumSlow,
        GrowthRate::FastThenVerySlow => firecore_pokedex::pokemon::data::GrowthRate::FastThenVerySlow,
        GrowthRate::SlowThenVeryFast => firecore_pokedex::pokemon::data::GrowthRate::SlowThenVeryFast,
    };
    growth.max_exp(level)
}

/// The experience a creature holds after it gains `gained`: five times the
/// gain is added, stopping at the largest amount that can be held.
pub open spec fn experience_with(experience: Experience, gained: Experience) -> Experience {
    if experience + gained * 5 > Experience::MAX {
        Experience::MAX
    } else {
        (experience + gained * 5) as Experience
    }
}

/// Level and experience once every level is taken that the experience pays
/// for: while the experience exceeds what the level needs, the need is paid
/// and the level rises. The highest level is never left.
pub open spec fn leveled(growth: GrowthRate, level: Level, experience: Experience) -> (
    Level,
    Experience,
)
    decreases Level::MAX - level,
{
    if level < Level::MAX && experience > growth_max_exp(growth, level) {
        leveled(
            growth,
            (level + 1) as Level,
            (experience - growth_max_exp(growth, level)) as Experience,
        )
    } else {
        (level, experience)
    }
}

/// The moves of `learnset` whose level lies in `[from, to)`, in the order of
/// the learnset.
pub open spec fn learned_between(learnset: Seq<LearnableMove>, from: Level, to: Level) -> Seq<
    MoveData,
>
    decreases learnset.len(),
{
    if learnset.len() == 0 {
        Seq::empty()
    } else {
        let rest = learned_between(learnset.drop_last(), from, to);
        if from <= learnset.last().0 < to {
            rest.push(learnset.last().1)
        } else {
            rest
        }
    }
}

/// How many of `gained` new moves go straight into a move set that holds
/// `known` moves: as many as there is room for.
pub open spec fn learned_at_once(known: nat, gained: nat) -> nat {
    if known >= MOVESET_SIZE {
        0
    } else if gained <= MOVESET_SIZE - known {
        gained
    } else {
        (MOVESET_SIZE - known) as nat
    }
}

/// The move set after `gained` moves were learned: the first of them fill
/// the free places, each with all its uses.
pub open spec fn moves_with(moves: Seq<OwnedMove>, gained: Seq<MoveData>) -> Seq<OwnedMove> {
    moves + Seq::new(
        learned_at_once(moves.len(), gained.len()),
        |i: int| OwnedMove(gained[i], gained[i].pp),
    )
}

/// The backlog after `gained` moves were learned: those that found no free
/// place wait behind the ones that waited already.
pub open spec fn backlog_with(
    moves: Seq<OwnedMove>,
    backlog: Seq<MoveData>,
    gained: Seq<MoveData>,
) -> Seq<MoveData> {
    backlog + gained.skip(learned_at_once(moves.len(), gained.len()) as int)
}

/// Whether `after` is the creature `before` once it has gained
/// `experience`: the experience is added and the levels it pays for are
/// taken; the moves that the species learns at the levels passed fill the
/// free places of the move set, and the rest of them wait in the backlog.
/// Nothing else changes.
pub open spec fn progressed(
    before: BattlePokemon,
    after: BattlePokemon,
    experience: Experience,
) -> bool {
    let gained = learned_between(before.learnset@, before.level, after.level);
    &&& after == (BattlePokemon {
        level: after.level,
        experience: after.experience,
        moves: after.moves,
        learnable_moves: after.learnable_moves,
        ..before
    })
    &&& (after.level, after.experience) == leveled(
        before.growth,
        before.level,
        experience_with(before.experience, experience),
    )
    &&& after.level >= before.level
    &&& after.moves@ == moves_with(before.moves@, gained)
    &&& after.learnable_moves@ == backlog_with(before.moves@, before.learnable_moves@, gained)
}

/// Whether `after` is the creature `before` with one use of the move in
/// slot `move_index` spent; a creature without such a move is unchanged.
pub open spec fn spent(before: BattlePokemon, after: BattlePokemon, move_index: int) -> bool {
    &&& after == (BattlePokemon { moves: after.moves, ..before })
    &&& after.moves@ == (if 0 <= move_index < before.moves@.len() {
        before.moves@.update(
            move_index,
            OwnedMove(
                before.moves@[move_index].0,
                if before.moves@[move_index].1 == 0 {
                    0
                } else {
                    (before.moves@[move_index].1 - 1) as u8
                },
            ),
        )
    } else {
        before.moves@
    })
}

/// Whether `copy` holds what `creature` holds: the same values and, where
/// the creature holds lists, lists of the same items.
pub open spec fn duplicate_of(creature: BattlePokemon, copy: BattlePokemon) -> bool {
    &&& copy == (BattlePokemon {
        moves: copy.moves,
        learnset: copy.learnset,
        learnable_moves: copy.learnable_moves,
        ..creature
    })
    &&& copy.moves@ == creature.moves@
    &&& copy.learnset@ == creature.learnset@
    &&& copy.learnable_moves@ == creature.learnable_moves@
}

/// Whether `at` is the first place of `backlog` that holds the move `id`.
pub open spec fn is_first_with(backlog: Seq<MoveData>, id: MoveId, at: int) -> bool {
    &&& 0 <= at < backlog.len()
    &&& backlog[at].id == id
    &&& forall|j: int| 0 <= j < at ==> (#[trigger] backlog[j]).id != id
}

/// The move set after the move `learned` was added to it: behind the
/// others where the set is not full; else in the place of the move in slot
/// `index`, if there is such a slot; else not at all.
pub open spec fn moves_after_add(
    moves: Seq<OwnedMove>,
    index: Option<usize>,
    learned: MoveData,
) -> Seq<
    OwnedMove,
> {
    if moves.len() < MOVESET_SIZE {
        moves.push(OwnedMove(learned, learned.pp))
    } else {
        match index {
            Some(index) if index < moves.len() => moves.update(
                index as int,
                OwnedMove(learned, learned.pp),
            ),
            _ => moves,
        }
    }
}

/// Whether `after` is the creature `before` once it was told to learn the
/// move `id` of its backlog: the move leaves the backlog, where it is held
/// for the first time, and is added to the move set. A creature whose
/// backlog does not hold the move is unchanged.
pub open spec fn learned(
    before: BattlePokemon,
    after: BattlePokemon,
    id: MoveId,
    index: Option<usize>,
) -> bool {
    if exists|at: int| is_first_with(before.learnable_moves@, id, at) {
        let at = choose|at: int| is_first_with(before.learnable_moves@, id, at);
        &&& after == (BattlePokemon {
            moves: after.moves,
            learnable_moves: after.learnable_moves,
            ..before
        })
        &&& after.learnable_moves@ == before.learnable_moves@.remove(at)
        &&& after.moves@ == moves_after_add(before.moves@, index, before.learnable_moves@[at])
    } else {
        after == before
    }
}

/// An action of an item's effect.
#[derive(Clone, Copy, Debug, PartialEq, Eq, Structural)]
pub enum ItemAction {
    /// Cures the named ailment, or any ailment where none is named.
    CurePokemon(Option<Ailment>),
    /// Gives health.
    HealPokemon(Health),
}

/// The ailment left after a cure for `cured`.
pub open spec fn ailment_after_cure(ailment: Option<LiveAilment>, cured: Option<Ailment>) -> Option<
    LiveAilment,
> {
    match (ailment, cured) {
        (Some(live), Some(named)) => if live.ailment == named {
            None
        } else {
            ailment
        },
        _ => None,
    }
}

impl BattlePokemon {
    /// The creature after an outcome is applied to it.
    pub open spec fn after(self, result: MoveResult) -> BattlePokemon {
        match result {
            MoveResult::Damage(damage) => BattlePokemon {
                hp: health_after_damage(self.hp, damage.damage),
                ..self
            },
            MoveResult::Heal(amount) => BattlePokemon {
                hp: health_after_heal(self.hp, self.max_hp, amount as int),
                ..self
            },
            MoveResult::Ailment(ailment) => BattlePokemon { ailment, ..self },
            MoveResult::Stat(stat, delta) => BattlePokemon {
                stages: self.stages.changed(stat, delta),
                ..self
            },
            MoveResult::Cancel(MoveCancel::Flinch) => BattlePokemon { flinch: true, ..self },
            MoveResult::Miss => self,
            MoveResult::Error => self,
        }
    }

    /// What the clients are shown of an outcome, read from the creature
    /// after the outcome was applied. A flinch is not shown.
    pub open spec fn record(self, result: MoveResult) -> Option<ClientMoveAction> {
        match result {
            MoveResult::Damage(damage) => Some(
                ClientMoveAction::SetDamage(
                    ClientDamage {
                        hp: self.health_percent(),
                        effective: damage.effective,
                        crit: damage.crit,
                    },
                ),
            ),
            MoveResult::Heal(_) => Some(ClientMoveAction::SetHP(self.health_percent())),
            MoveResult::Ailment(ailment) => Some(ClientMoveAction::Ailment(ailment)),
            MoveResult::Stat(stat, delta) => Some(ClientMoveAction::AddStat(stat, delta)),
            MoveResult::Cancel(_) => None,
            MoveResult::Miss => Some(ClientMoveAction::Miss),
            MoveResult::Error => Some(ClientMoveAction::Error),
        }
    }

    /// The creature after an item action is applied to it.
    pub open spec fn after_item(self, action: ItemAction) -> BattlePokemon {
        match action {
            ItemAction::CurePokemon(cured) => BattlePokemon {
                ailment: ailment_after_cure(self.ailment, cured),
                ..self
            },
            ItemAction::HealPokemon(amount) => BattlePokemon {
                hp: health_after_heal(self.hp, self.max_hp, amount as int),
                ..self
            },
        }
    }

    /// The creature after every action of `actions` is applied, in order.
    pub open spec fn after_items(self, actions: Seq<ItemAction>) -> BattlePokemon
        decreases actions.len(),
    {
        if actions.len() == 0 {
            self
        } else {
            self.after_items(actions.drop_last()).after_item(actions.last())
        }
    }

    /// Takes `damage` from the creature's health, stopping at zero.
    pub fn damage(&mut self, damage: Health)
        ensures
            *final(self) == (BattlePokemon {
                hp: health_after_damage(old(self).hp, damage),
                ..*old(self)
            }),
            final(self).hp <= old(self).hp,
    {
        self.hp = if damage >= self.hp {
            0
        } else {
            self.hp - damage
        };
    }

    /// Adds `amount` to the creature's health, or takes it away where it is
    /// negative, stopping at zero and at full health.
    pub fn heal(&mut self, amount: i32)
        requires
            old(self).hp <= old(self).max_hp,
        ensures
            *final(self) == (BattlePokemon {
                hp: health_after_heal(old(self).hp, old(self).max_hp, amount as int),
                ..*old(self)
            }),
            final(self).hp <= final(self).max_hp,
    {
        let sum: i64 = self.hp as i64 + amount as i64;
        self.hp = if sum <= 0 {
            0
        } else if sum >= self.max_hp as i64 {
            self.max_hp
        } else {
            sum as Health
        };
    }

    /// Applies one outcome to the creature and says what the clients are
    /// shown of it.
    pub fn apply(&mut self, result: MoveResult) -> (record: Option<ClientMoveAction>)
        requires
            old(self).wf(),
        ensures
            *final(self) == old(self).after(result),
            record == final(self).record(result),
            final(self).wf(),
    {
        match result {
            MoveResult::Damage(damage) => {
                self.damage(damage.damage);
                Some(
                    ClientMoveAction::SetDamage(
                        ClientDamage {
                            hp: self.percent_hp(),
                            effective: damage.effective,
                            crit: damage.crit,
                        },
                    ),
                )
            },
            MoveResult::Heal(amount) => {
                self.heal(amount);
                Some(ClientMoveAction::SetHP(self.percent_hp()))
            },
            MoveResult::Ailment(ailment) => {
                self.ailment = ailment;
                Some(ClientMoveAction::Ailment(ailment))
            },
            MoveResult::Stat(stat, delta) => {
                self.stages.change_stage(stat, delta);
                Some(ClientMoveAction::AddStat(stat, delta))
            },
            MoveResult::Cancel(MoveCancel::Flinch) => {
                self.flinch = true;
                None
            },
            MoveResult::Miss => Some(ClientMoveAction::Miss),
            MoveResult::Error => Some(ClientMoveAction::Error),
        }
    }

    /// Applies the actions of an item to the creature, in order.
    pub fn use_item_actions(&mut self, actions: &Vec<ItemAction>)
        requires
            old(self).wf(),
        ensures
            *final(self) == old(self).after_items(actions@),
            final(self).wf(),
            final(self).hp >= old(self).hp,
    {
        let mut i: usize = 0;
        while i < actions.len()
            invariant
                i <= actions.len(),
                self.wf(),
                self.hp >= old(self).hp,
                *self == old(self).after_items(actions@.take(i as int)),
            decreases actions.len() - i,
        {
            assert(actions@.take(i + 1).drop_last() =~= actions@.take(i as int));
            match actions[i] {
                ItemAction::CurePokemon(cured) => {
                    self.ailment = match (self.ailment, cured) {
                        (Some(live), Some(named)) => if same_ailment(live.ailment, named) {
                            None
                        } else {
                            self.ailment
                        },
                        _ => None,
                    };
                },
                ItemAction::HealPokemon(amount) => {
                    self.heal(amount as i32);
                },
            }
            i += 1;
        }
        assert(actions@.take(actions.len() as int) =~= actions@);
    }

    /// The definition of the move in slot `move_index` of the move set, if
    /// there is one and a use of it is left.
    pub open spec fn usable_move(&self, move_index: int) -> Option<MoveData> {
        if 0 <= move_index < self.moves@.len() && self.moves@[move_index].1 != 0 {
            Some(self.moves@[move_index].0)
        } else {
            None
        }
    }

    /// The definition of the move in slot `move_index`, if it can be used.
    pub fn try_use(&self, move_index: usize) -> (used: Option<MoveData>)
        ensures
            used == self.usable_move(move_index as int),
    {
        if move_index < self.moves.len() {
            self.moves[move_index].try_use()
        } else {
            None
        }
    }

    /// Spends one use of the move in slot `move_index`.
    pub fn spend(&mut self, move_index: usize)
        ensures
            spent(*old(self), *final(self), move_index as int),
    {
        if move_index < self.moves.len() {
            self.moves[move_index].decrement();
        }
    }

    /// A second creature that holds what this one holds.
    pub fn duplicate(&self) -> (copy: BattlePokemon)
        ensures
            duplicate_of(*self, copy),
    {
        let mut moves: Vec<OwnedMove> = Vec::new();
        let mut i: usize = 0;
        while i < self.moves.len()
            invariant
                i <= self.moves.len(),
                moves@ == self.moves@.take(i as int),
            decreases self.moves.len() - i,
        {
            moves.push(self.moves[i]);
            i += 1;
        }
        assert(self.moves@.take(self.moves.len() as int) =~= self.moves@);
        let mut learnset: Vec<LearnableMove> = Vec::new();
        let mut j: usize = 0;
        while j < self.learnset.len()
            invariant
                j <= self.learnset.len(),
                learnset@ == self.learnset@.take(j as int),
            decreases self.learnset.len() - j,
        {
            learnset.push(self.learnset[j]);
            j += 1;
        }
        assert(self.learnset@.take(self.learnset.len() as int) =~= self.learnset@);
        let mut learnable_moves: Vec<MoveData> = Vec::new();
        let mut k: usize = 0;
        while k < self.learnable_moves.len()
            invariant
                k <= self.learnable_moves.len(),
                learnable_moves@ == self.learnable_moves@.take(k as int),
            decreases self.learnable_moves.len() - k,
        {
            learnable_moves.push(self.learnable_moves[k]);
            k += 1;
        }
        assert(self.learnable_moves@.take(self.learnable_moves.len() as int)
            =~= self.learnable_moves@);
        BattlePokemon {
            species: self.species,
            primary: self.primary,
            secondary: self.secondary,
            level: self.level,
            hp: self.hp,
            max_hp: self.max_hp,
            attack: self.attack,
            defense: self.defense,
            sp_attack: self.sp_attack,
            sp_defense: self.sp_defense,
            speed: self.speed,
            base_exp: self.base_exp,
            growth: self.growth,
            experience: self.experience,
            ailment: self.ailment,
            stages: self.stages,
            flinch: self.flinch,
            moves,
            learnset,
            learnable_moves,
            known: self.known,
        }
    }

    /// Lets the creature learn the move `id` of its backlog, in slot `index`
    /// of a full move set.
    pub fn learn(&mut self, id: MoveId, index: Option<usize>)
        ensures
            learned(*old(self), *final(self), id, index),
    {
        let mut at: usize = 0;
        while at < self.learnable_moves.len()
            invariant
                at <= self.learnable_moves.len(),
                *self == *old(self),
                forall|j: int| 0 <= j < at ==> (#[trigger] self.learnable_moves@[j]).id != id,
            decreases self.learnable_moves.len() - at,
        {
            if self.learnable_moves[at].id == id {
                proof {
                    assert(is_first_with(self.learnable_moves@, id, at as int));
                }
                let learned: MoveData = self.learnable_moves.remove(at);
                if self.moves.len() < MOVESET_SIZE {
                    self.moves.push(OwnedMove::new(learned));
                } else {
                    match index {
                        Some(index) => {
                            if index < self.moves.len() {
                                self.moves[index] = OwnedMove::new(learned);
                            }
                        },
                        None => {},
                    }
                }
                return ;
            }
            at += 1;
        }
    }

    /// Gives the creature the experience of a defeated opponent: the
    /// experience is added, the levels it pays for are taken, and the moves
    /// that the species learns at the levels passed fill the move set, the
    /// rest of them waiting in the backlog.
    pub fn add_exp(&mut self, experience: Experience)
        ensures
            progressed(*old(self), *final(self), experience),
    {
        let previous: Level = self.level;
        let sum: u64 = self.experience as u64 + experience as u64 * 5;
        self.experience = if sum > Experience::MAX as u64 {
            Experience::MAX
        } else {
            sum as Experience
        };
        let ghost start = self.experience;
        let mut rising: bool = self.level < Level::MAX;
        while rising
            invariant
                rising ==> self.level < Level::MAX,
                self.level >= previous,
                leveled(self.growth, self.level, self.experience) == leveled(
                    self.growth,
                    previous,
                    start,
                ),
                !rising ==> leveled(self.growth, self.level, self.experience) == (
                    self.level,
                    self.experience,
                ),
                *self == (BattlePokemon {
                    level: self.level,
                    experience: self.experience,
                    ..*old(self)
                }),
            decreases Level::MAX - self.level, (if rising { 1int } else { 0int }),
        {
            let needed: Experience = max_exp(self.growth, self.level);
            if self.experience > needed {
                self.experience = self.experience - needed;
                self.level = self.level + 1;
                rising = self.level < Level::MAX;
            } else {
                rising = false;
            }
        }
        let gained: Vec<MoveData> = moves_between(&self.learnset, previous, self.level);
        let ghost known = self.moves@;
        let ghost backlog = self.learnable_moves@;
        let ghost reached = (self.level, self.experience);
        let mut i: usize = 0;
        while i < gained.len()
            invariant
                i <= gained.len(),
                reached == (self.level, self.experience),
                known == old(self).moves@,
                backlog == old(self).learnable_moves@,
                self.moves@ == known + Seq::new(
                    learned_at_once(known.len(), i as nat),
                    |k: int| OwnedMove(gained@[k], gained@[k].pp),
                ),
                self.learnable_moves@ == backlog + gained@.subrange(
                    learned_at_once(known.len(), i as nat) as int,
                    i as int,
                ),
                *self == (BattlePokemon {
                    level: self.level,
                    experience: self.experience,
                    moves: self.moves,
                    learnable_moves: self.learnable_moves,
                    ..*old(self)
                }),
            decreases gained.len() - i,
        {
            if self.moves.len() < MOVESET_SIZE {
                self.moves.push(OwnedMove::new(gained[i]));
            } else {
                self.learnable_moves.push(gained[i]);
            }
            i += 1;
        }
    }
}

/// Whether two ailments are the same one.
fn same_ailment(a: Ailment, b: Ailment) -> (same: bool)
    ensures
        same == (a == b),
{
    a == b
}

/// The moves of `learnset` whose level lies in `[from, to)`.
fn moves_between(learnset: &Vec<LearnableMove>, from: Level, to: Level) -> (gained: Vec<MoveData>)
    ensures
        gained@ == learned_between(learnset@, from, to),
{
    let mut gained: Vec<MoveData> = Vec::new();
    let mut i: usize = 0;
    while i < learnset.len()
        invariant
            i <= learnset.len(),
            gained@ == learned_between(learnset@.take(i as int), from, to),
        decreases learnset.len() - i,
    {
        assert(learnset@.take(i + 1).drop_last() =~= learnset@.take(i as int));
        let level: Level = learnset[i].0;
        if from <= level && level < to {
            gained.push(learnset[i].1);
        }
        i += 1;
    }
    assert(learnset@.take(learnset.len() as int) =~= learnset@);
    gained
}

/// Whatever outcome is applied to a creature, its health stays between
/// zero and its full health, which does not change. Damage never raises
/// the health, and healing by an amount that is not negative never lowers
/// it.
pub proof fn lemma_health_stays_in_bounds(creature: BattlePokemon, result: MoveResult)
    requires
        creature.wf(),
    ensures
        creature.after(result).wf(),
        creature.after(result).max_hp == creature.max_hp,
        0 <= creature.after(result).hp <= creature.max_hp,
        result is Damage ==> creature.after(result).hp <= creature.hp,
        result matches MoveResult::Heal(amount) && amount >= 0 ==> creature.after(result).hp
            >= creature.hp,
{
    match result {
        MoveResult::Stat(stat, delta) => {
            lemma_change_keeps_bounds(creature.stages, stat, delta);
        },
        _ => {},
    }
}

/// An outcome that sets an ailment leaves the creature with exactly that
/// ailment, whatever it carried: a creature never carries two.
pub proof fn lemma_one_ailment_at_a_time(creature: BattlePokemon, ailment: Option<LiveAilment>)
    ensures
        creature.after(MoveResult::Ailment(ailment)).ailment == ailment,
{
}

} // verus!
