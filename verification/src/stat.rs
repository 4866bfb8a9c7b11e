//! Stat stages: bounded modifiers on a creature's battle statistics.

use vstd::prelude::*;

verus! {

/// A stage delta or a current stage.
pub type Stage = i8;

/// The lowest stage a statistic can sink to.
pub const MIN_STAGE: Stage = -6;

/// The highest stage a statistic can rise to.
pub const MAX_STAGE: Stage = 6;

/// The statistics that carry a stage in battle.
#[derive(Clone, Copy, Debug, PartialEq, Eq, Structural)]
pub enum BattleStatType {
    Health,
    Attack,
    Defense,
    SpAttack,
    SpDefense,
    Speed,
    Accuracy,
    Evasion,
}

/// The current stage of every battle statistic of one creature.
#[derive(Clone, Copy, Debug, PartialEq, Eq, Structural)]
pub struct StatStages {
    pub health: Stage,
    pub attack: Stage,
    pub defense: Stage,
    pub sp_attack: Stage,
    pub sp_defense: Stage,
    pub speed: Stage,
    pub accuracy: Stage,
    pub evasion: Stage,
}

/// `value` brought into the stage bounds.
pub open spec fn clamp_stage(value: int) -> int {
    if value < MIN_STAGE {
        MIN_STAGE as int
    } else if value > MAX_STAGE {
        MAX_STAGE as int
    } else {
        value
    }
}

/// Whether a stage at `current` moves when `delta` is applied: the delta
/// has a direction and the stage is not at the bound in that direction.
pub open spec fn stage_can_move(current: int, delta: int) -> bool {
    (delta > 0 && current < MAX_STAGE) || (delta < 0 && current > MIN_STAGE)
}

impl StatStages {
    /// The stage of `stat`.
    pub open spec fn stage(&self, stat: BattleStatType) -> Stage {
        match stat {
            BattleStatType::Health => self.health,
            BattleStatType::Attack => self.attack,
            BattleStatType::Defense => self.defense,
            BattleStatType::SpAttack => self.sp_attack,
            BattleStatType::SpDefense => self.sp_defense,
            BattleStatType::Speed => self.speed,
            BattleStatType::Accuracy => self.accuracy,
            BattleStatType::Evasion => self.evasion,
        }
    }

    /// Every stage lies within `[MIN_STAGE, MAX_STAGE]`.
    pub open spec fn wf(&self) -> bool {
        forall|stat: BattleStatType| MIN_STAGE <= #[trigger] self.stage(stat) <= MAX_STAGE
    }

    /// These stages with the stage of `stat` replaced by `value`.
    pub open spec fn with_stage(self, stat: BattleStatType, value: Stage) -> StatStages {
        match stat {
            BattleStatType::Health => StatStages { health: value, ..self },
            BattleStatType::Attack => StatStages { attack: value, ..self },
            BattleStatType::Defense => StatStages { defense: value, ..self },
            BattleStatType::SpAttack => StatStages { sp_attack: value, ..self },
            BattleStatType::SpDefense => StatStages { sp_defense: value, ..self },
            BattleStatType::Speed => StatStages { speed: value, ..self },
            BattleStatType::Accuracy => StatStages { accuracy: value, ..self },
            BattleStatType::Evasion => StatStages { evasion: value, ..self },
        }
    }

    /// These stages after `delta` is applied to `stat`, clamped to the bounds.
    pub open spec fn changed(self, stat: BattleStatType, delta: Stage) -> StatStages {
        self.with_stage(stat, clamp_stage(self.stage(stat) + delta) as Stage)
    }

    /// All stages at zero.
    pub fn new() -> (stages: StatStages)
        ensures
            stages.wf(),
            forall|stat: BattleStatType| #[trigger] stages.stage(stat) == 0,
    {
        StatStages {
            health: 0,
            attack: 0,
            defense: 0,
            sp_attack: 0,
            sp_defense: 0,
            speed: 0,
            accuracy: 0,
            evasion: 0,
        }
    }

    /// The stage of `stat`.
    pub fn get(&self, stat: BattleStatType) -> (stage: Stage)
        ensures
            stage == self.stage(stat),
    {
        match stat {
            BattleStatType::Health => self.health,
            BattleStatType::Attack => self.attack,
            BattleStatType::Defense => self.defense,
            BattleStatType::SpAttack => self.sp_attack,
            BattleStatType::SpDefense => self.sp_defense,
            BattleStatType::Speed => self.speed,
            BattleStatType::Accuracy => self.accuracy,
            BattleStatType::Evasion => self.evasion,
        }
    }

    /// Whether every stage lies within the bounds.
    pub fn is_valid(&self) -> (valid: bool)
        ensures
            valid == self.wf(),
    {
        let valid: bool = in_bounds(self.health) && in_bounds(self.attack) && in_bounds(
            self.defense,
        ) && in_bounds(self.sp_attack) && in_bounds(self.sp_defense) && in_bounds(self.speed)
            && in_bounds(self.accuracy) && in_bounds(self.evasion);
        proof {
            if valid {
            } else {
                assert(self.stage(BattleStatType::Health) == self.health);
                assert(self.stage(BattleStatType::Attack) == self.attack);
                assert(self.stage(BattleStatType::Defense) == self.defense);
                assert(self.stage(BattleStatType::SpAttack) == self.sp_attack);
                assert(self.stage(BattleStatType::SpDefense) == self.sp_defense);
                assert(self.stage(BattleStatType::Speed) == self.speed);
                assert(self.stage(BattleStatType::Accuracy) == self.accuracy);
                assert(self.stage(BattleStatType::Evasion) == self.evasion);
            }
        }
        valid
    }

    /// Whether applying `delta` to `stat` would move its stage.
    pub fn can_change(&self, stat: BattleStatType, delta: Stage) -> (can: bool)
        ensures
            can == stage_can_move(self.stage(stat) as int, delta as int),
    {
        let current: Stage = self.get(stat);
        (delta > 0 && current < MAX_STAGE) || (delta < 0 && current > MIN_STAGE)
    }

    /// Applies `delta` to the stage of `stat`, stopping at the bounds.
    pub fn change_stage(&mut self, stat: BattleStatType, delta: Stage)
        requires
            old(self).wf(),
        ensures
            *final(self) == old(self).changed(stat, delta),
            final(self).wf(),
    {
        let current: Stage = self.get(stat);
        let moved: i16 = current as i16 + delta as i16;
        let value: Stage = if moved < MIN_STAGE as i16 {
            MIN_STAGE
        } else if moved > MAX_STAGE as i16 {
            MAX_STAGE
        } else {
            moved as Stage
        };
        match stat {
            BattleStatType::Health => self.health = value,
            BattleStatType::Attack => self.attack = value,
            BattleStatType::Defense => self.defense = value,
            BattleStatType::SpAttack => self.sp_attack = value,
            BattleStatType::SpDefense => self.sp_defense = value,
            BattleStatType::Speed => self.speed = value,
            BattleStatType::Accuracy => self.accuracy = value,
            BattleStatType::Evasion => self.evasion = value,
        }
        proof {
            let before = *old(self);
            assert forall|s: BattleStatType| MIN_STAGE <= #[trigger] self.stage(s) <= MAX_STAGE by {
                assert(MIN_STAGE <= before.stage(s) <= MAX_STAGE);
            }
        }
    }
}

/// Whether one stage lies within the bounds.
fn in_bounds(stage: Stage) -> (inside: bool)
    ensures
        inside == (MIN_STAGE <= stage <= MAX_STAGE),
{
    MIN_STAGE <= stage && stage <= MAX_STAGE
}

/// Applying a delta that cannot move a stage leaves the stages as they were.
pub proof fn lemma_blocked_change_is_identity(
    stages: StatStages,
    stat: BattleStatType,
    delta: Stage,
)
    requires
        stages.wf(),
        delta != 0,
        !stage_can_move(stages.stage(stat) as int, delta as int),
    ensures
        stages.changed(stat, delta) == stages,
{
}

/// Applying a delta keeps every stage within the bounds.
pub proof fn lemma_change_keeps_bounds(stages: StatStages, stat: BattleStatType, delta: Stage)
    requires
        stages.wf(),
    ensures
        stages.changed(stat, delta).wf(),
        MIN_STAGE <= stages.changed(stat, delta).stage(stat) <= MAX_STAGE,
{
    let after = stages.changed(stat, delta);
    assert forall|other: BattleStatType| MIN_STAGE <= #[trigger] after.stage(other) <= MAX_STAGE by {
        assert(MIN_STAGE <= stages.stage(other) <= MAX_STAGE);
    }
}

} // verus!
