//! What is fixed about a battle when it starts.

use vstd::prelude::*;

verus! {

/// The kind of battle that is fought.
#[derive(Clone, Copy, Debug, PartialEq, Eq, Structural)]
pub enum BattleType {
    /// An encounter with a wild creature, which may be caught.
    Wild,
    /// A battle against a trainer.
    Trainer,
    /// A battle against a gym leader.
    GymLeader,
}

/// The immutable facts of one battle.
#[derive(Clone, Copy, Debug, PartialEq, Eq, Structural)]
pub struct BattleData {
    pub type_: BattleType,
}

impl BattleData {
    /// The facts of a battle of the given kind.
    pub fn new(type_: BattleType) -> (data: BattleData)
        ensures
            data.type_ == type_,
    {
        BattleData { type_ }
    }

    /// Whether creatures can be caught in this battle.
    pub fn is_wild(&self) -> (wild: bool)
        ensures
            wild == (self.type_ == BattleType::Wild),
    {
        match self.type_ {
            BattleType::Wild => true,
            _ => false,
        }
    }
}

} // verus!
