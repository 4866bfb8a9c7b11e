//! Turn resolution for a multi-party, turn-based creature battle.
//!
//! The crate is a state machine without I/O. A [`host::Battle`] takes the
//! messages of its participants from their inboxes, orders the intents
//! queued for a round ([`queue`]), has an engine resolve each move into
//! outcomes ([`engine`], [`default_engine`]), applies the outcomes to the
//! parties ([`applier`]) and queues what has to be sent. All randomness is
//! drawn from a generator that the caller hands in ([`random`]).
//!
//! Contracts speak of a battle through [`host::BattleView`] and of the
//! participants through the sequence of their records; the invariant of a
//! party is [`party::BattleParty::wf`].

pub mod ai;
pub mod ailment;
pub mod applier;
pub mod data;
pub mod default_engine;
pub mod engine;
pub mod host;
pub mod item;
pub mod message;
pub mod moves;
pub mod party;
pub mod player;
pub mod pokemon;
pub mod queue;
pub mod random;
pub mod scripting;
pub mod stat;
pub mod target;
pub mod view;
