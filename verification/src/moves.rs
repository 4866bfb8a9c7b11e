//! Moves, the intents that participants queue, the outcomes that an effect
//! engine produces and the records that clients are shown.

use crate::ailment::LiveAilment;
use crate::pokemon::{Indexed, PokemonIdentifier};
use crate::stat::{BattleStatType, Stage};
use firecore_pokedex::moves::MoveCategory;
use firecore_pokedex::types::{Effective, PokemonType};
use vstd::prelude::*;

verus! {

/// The identifier of a move: the sixteen bytes of its name in the
/// definition store, read as one number.
pub type MoveId = u128;

/// The identifier of an item, formed as a [`MoveId`] is.
pub type ItemId = u128;

/// How often a move can still be used.
pub type PP = u8;

/// Moves of a higher priority go first.
pub type Priority = i8;

/// The chance of a move to land, out of 100.
pub type Accuracy = u8;

/// The strength of a move.
pub type Power = u8;

/// Raises the chance of a critical hit.
pub type CriticalRate = u8;

/// A chance from 0 to 100.
pub type Percent = u8;

/// An amount of health.
pub type Health = u16;

/// The level of a creature.
pub type Level = u8;

/// An amount of experience.
pub type Experience = u32;

/// The value of a statistic.
pub type BaseStat = u16;

/// Whether a hit was critical.
pub type Critical = bool;

/// `firecore_pokedex::moves::MoveCategory`, carried for the damage formula.
#[verifier::external_type_specification]
#[verifier::external_body]
pub struct ExMoveCategory(MoveCategory);

/// `firecore_pokedex::types::PokemonType`, carried for the damage formula.
#[verifier::external_type_specification]
#[verifier::external_body]
pub struct ExPokemonType(PokemonType);

/// `firecore_pokedex::types::Effective`, carried from the damage formula to
/// the clients.
#[verifier::external_type_specification]
#[verifier::external_body]
pub struct ExEffective(Effective);

/// Whom a move is aimed at.
#[derive(Clone, Copy, Debug, PartialEq, Eq, Structural)]
pub enum MoveTarget {
    Any,
    Ally,
    Allies,
    UserOrAlly,
    UserAndAllies,
    User,
    Opponent,
    AllOpponents,
    RandomOpponent,
    AllOtherPokemon,
    AllPokemon,
    /// The move is aimed at no creature.
    NoTarget,
}

/// The definition of a move, as far as a battle reads it.
#[derive(Clone, Copy, Debug)]
pub struct MoveData {
    pub id: MoveId,
    pub category: MoveCategory,
    pub pokemon_type: PokemonType,
    /// `None` for a move that always lands.
    pub accuracy: Option<Accuracy>,
    pub power: Option<Power>,
    pub pp: PP,
    pub priority: Priority,
    pub target: MoveTarget,
    pub contact: bool,
    pub crit_rate: CriticalRate,
}

/// A move in a creature's move set, with the uses it has left.
#[derive(Clone, Copy, Debug)]
pub struct OwnedMove(pub MoveData, pub PP);

impl OwnedMove {
    /// A move with all its uses.
    pub fn new(data: MoveData) -> (owned: OwnedMove)
        ensures
            owned.0 == data,
            owned.1 == data.pp,
    {
        OwnedMove(data, data.pp)
    }

    /// Whether no use is left.
    pub fn is_empty(&self) -> (empty: bool)
        ensures
            empty == (self.1 == 0),
    {
        self.1 == 0
    }

    /// The move's definition, if a use is left.
    pub fn try_use(&self) -> (used: Option<MoveData>)
        ensures
            used == (if self.1 == 0 {
                None
            } else {
                Some(self.0)
            }),
    {
        if self.1 == 0 {
            None
        } else {
            Some(self.0)
        }
    }

    /// Takes one use away, if one is left.
    pub fn decrement(&mut self)
        ensures
            final(self).0 == old(self).0,
            final(self).1 == (if old(self).1 == 0 {
                0
            } else {
                old(self).1 - 1
            }),
    {
        if self.1 > 0 {
            self.1 = self.1 - 1;
        }
    }
}

/// How the damage of an action is determined.
#[derive(Clone, Copy, Debug, PartialEq, Eq, Structural)]
pub enum DamageKind {
    /// From the power of the move and the statistics of both creatures.
    Power(Power),
    /// A share of the target's current health.
    PercentCurrent(Percent),
    /// A share of the target's full health.
    PercentMax(Percent),
    /// A fixed amount.
    Constant(Health),
}

/// What a damage formula computed.
#[derive(Clone, Copy, Debug)]
pub struct DamageResult {
    pub damage: Health,
    pub effective: Effective,
    pub crit: Critical,
}

/// What keeps a creature from acting.
#[derive(Clone, Copy, Debug, PartialEq, Eq, Structural)]
pub enum MoveCancel {
    Flinch,
}

/// One outcome of a move, not yet applied to any creature.
#[derive(Clone, Copy, Debug)]
pub enum MoveResult {
    /// Health to take away.
    Damage(DamageResult),
    /// Health to give; to take away where the amount is negative.
    Heal(i32),
    /// The ailment to set, or `None` to clear the current one.
    Ailment(Option<LiveAilment>),
    /// A delta for the stage of a statistic.
    Stat(BattleStatType, Stage),
    /// Something that cancels the target's next action.
    Cancel(MoveCancel),
    /// The move did not land.
    Miss,
    /// The engine could not say what happened.
    Error,
}

/// An intent that a participant queues for one of its active slots.
#[derive(Clone, Copy, Debug, PartialEq, Eq, Structural)]
pub enum BattleMove {
    /// Use the move in the given slot of the move set, on the given target
    /// if one is named.
    Move(usize, Option<PokemonIdentifier>),
    /// Use an item on a creature.
    UseItem(ItemId, PokemonIdentifier),
    /// Bring in the creature at the given bench index.
    Switch(usize),
}

impl BattleMove {
    /// Whether the intent uses a move; the other intents are resolved before
    /// any move.
    pub open spec fn is_move(&self) -> bool {
        *self is Move
    }

    /// Whether the intent uses a move.
    pub fn uses_move(&self) -> (is_move: bool)
        ensures
            is_move == self.is_move(),
    {
        match self {
            BattleMove::Move(..) => true,
            _ => false,
        }
    }
}

/// A share of full health, kept as the two amounts it is the quotient of.
#[derive(Clone, Copy, Debug, PartialEq, Eq, Structural)]
pub struct HealthPercent {
    pub hp: Health,
    pub max_hp: Health,
}

impl HealthPercent {
    /// Whether the share is zero: the creature has fainted.
    pub fn is_zero(&self) -> (zero: bool)
        ensures
            zero == (self.hp == 0),
    {
        self.hp == 0
    }
}

/// Damage as a client is shown it.
#[derive(Clone, Copy, Debug)]
pub struct ClientDamage {
    /// The health the target is left at.
    pub hp: HealthPercent,
    pub effective: Effective,
    pub crit: Critical,
}

/// One thing that happened to a creature while a move was resolved.
#[derive(Clone, Copy, Debug)]
pub enum ClientMoveAction {
    /// The creature was damaged and is left at this health.
    SetDamage(ClientDamage),
    /// The creature's health changed to this.
    SetHP(HealthPercent),
    /// The stage of a statistic moved by a delta.
    AddStat(BattleStatType, Stage),
    /// The creature's ailment was set or, with `None`, cleared.
    Ailment(Option<LiveAilment>),
    /// The move did not land.
    Miss,
    /// The creature gained experience and stands at this level.
    SetExp(Experience, Level),
    /// The engine could not say what happened.
    Error,
}

/// One resolved action, as all clients are shown it.
#[derive(Debug)]
pub enum ClientMove {
    /// The move used, the uses it cost and what it did to whom.
    Move(MoveId, PP, Vec<Indexed<ClientMoveAction>>),
    /// The bench index of the creature that came in.
    Switch(usize),
    /// The item used and the active slot it was used on.
    UseItem(ItemId, usize),
}

/// The healing that draining `percent` of `damage` gives: the product
/// divided by 100 and rounded down. A negative percent gives a negative
/// amount.
pub open spec fn drain_amount(damage: int, percent: int) -> int {
    (damage * percent) / 100
}

/// The healing of a draining move that did `damage`.
pub fn drain_healing(damage: Health, percent: i8) -> (healing: i32)
    ensures
        healing == drain_amount(damage as int, percent as int),
{
    if percent >= 0 {
        let share: u32 = percent as u32;
        assert(damage * share <= 65535 * 127) by (nonlinear_arith)
            requires
                damage <= 65535,
                share <= 127,
        ;
        let product: u32 = damage as u32 * share;
        (product / 100) as i32
    } else {
        let share: u32 = (-(percent as i32)) as u32;
        assert(damage * share <= 65535 * 128) by (nonlinear_arith)
            requires
                damage <= 65535,
                share <= 128,
        ;
        let product: u32 = damage as u32 * share;
        assert(damage as int * percent as int == -(product as int)) by (nonlinear_arith)
            requires
                product as int == damage as int * share as int,
                share as int == -(percent as int),
        ;
        let up: u32 = (product + 99) / 100;
        -(up as i32)
    }
}

} // verus!
