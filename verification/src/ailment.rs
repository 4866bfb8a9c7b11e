//! Status ailments: persistent conditions, of which a creature carries at
//! most one.

use rand::rngs::StdRng;
use vstd::prelude::*;

verus! {

/// A status condition.
#[derive(Clone, Copy, Debug, PartialEq, Eq, Structural)]
pub enum Ailment {
    Paralysis,
    Sleep,
    Freeze,
    Burn,
    Poison,
}

/// How many turns an ailment still lasts; `None` for one that does not
/// wear off.
pub type Remaining = Option<u8>;

/// How long an ailment lasts when it is granted.
#[derive(Clone, Copy, Debug, PartialEq, Eq, Structural)]
pub enum AilmentLength {
    /// The ailment does not wear off.
    Permanent,
    /// The ailment lasts a number of turns drawn between the two bounds,
    /// both included.
    Temporary(u8, u8),
}

/// An ailment that afflicts a creature.
#[derive(Clone, Copy, Debug, PartialEq, Eq, Structural)]
pub struct LiveAilment {
    pub ailment: Ailment,
    pub turns: Remaining,
}

impl AilmentLength {
    /// A temporary length names a range that is not empty.
    pub open spec fn wf(&self) -> bool {
        match *self {
            AilmentLength::Permanent => true,
            AilmentLength::Temporary(min, max) => min <= max,
        }
    }

    /// Whether `turns` is a duration this length can start with.
    pub open spec fn allows(&self, turns: Remaining) -> bool {
        match *self {
            AilmentLength::Permanent => turns is None,
            AilmentLength::Temporary(min, max) => turns matches Some(t) && min <= t <= max,
        }
    }

    /// Whether the length names a range that is not empty.
    pub fn is_valid(&self) -> (valid: bool)
        ensures
            valid == self.wf(),
    {
        match *self {
            AilmentLength::Permanent => true,
            AilmentLength::Temporary(min, max) => min <= max,
        }
    }

    /// Starts `ailment` with a duration drawn for this length.
    pub fn init(&self, ailment: Ailment, random: &mut StdRng) -> (live: LiveAilment)
        requires
            self.wf(),
        ensures
            live.ailment == ailment,
            self.allows(live.turns),
    {
        LiveAilment { ailment, turns: roll_turns(*self, random) }
    }
}

/// Calls `AilmentLength::get` of the pokedex on the same length. Its source
/// returns `None` for a permanent length and, for a temporary one,
/// `gen_range(min..=max)` wrapped in `Some`: a value between the bounds,
/// both included. The draw panics on an empty range, which `requires` rules
/// out.
#[verifier::external_body]
fn roll_turns(length: AilmentLength, random: &mut StdRng) -> (turns: Remaining)
    requires
        length.wf(),
    ensures
        length.allows(turns),
{
    let length = match length {
        AilmentLength::Permanent => firecore_pokedex::ailment::AilmentLength::Permanent,
        AilmentLength::Temporary(min, max) => firecore_pokedex::ailment::AilmentLength::Temporary(
            min,
            max,
        ),
    };
    length.get(random)
}

/// Whether an ailment move that rolled `hit` grants its ailment: only a
/// creature without an ailment can receive one.
pub fn grants_ailment(hit: bool, afflicted: bool) -> (grants: bool)
    ensures
        grants == (hit && !afflicted),
{
    hit && !afflicted
}

/// Whether a curing move that rolled `hit` clears an ailment: only a
/// creature that carries one can lose it.
pub fn clears_ailment(hit: bool, afflicted: bool) -> (clears: bool)
    ensures
        clears == (hit && afflicted),
{
    hit && afflicted
}

} // verus!
