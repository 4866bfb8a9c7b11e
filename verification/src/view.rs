//! One way to look at a creature, whether it is one's own or one that
//! another participant has shown.

use crate::moves::Level;
use crate::pokemon::{BattlePokemon, RemotePokemon};
use vstd::prelude::*;

verus! {

/// What can be asked of a creature however much of it is known.
pub trait PokemonView {
    /// The species of the creature; zero for a creature that was not shown.
    fn pokemon(&self) -> u16;

    /// The level of the creature; zero for a creature that was not shown.
    fn level(&self) -> Level;

    /// Whether the creature has no health left.
    fn fainted(&self) -> bool;

    /// Whether the creature can stand in an active slot.
    fn available(&self) -> bool;
}

impl PokemonView for BattlePokemon {
    fn pokemon(&self) -> (species: u16)
        ensures
            species == self.species,
    {
        self.species
    }

    fn level(&self) -> (level: Level)
        ensures
            level == self.level,
    {
        self.level
    }

    fn fainted(&self) -> (fainted: bool)
        ensures
            fainted == self.is_fainted(),
    {
        self.hp == 0
    }

    fn available(&self) -> (available: bool)
        ensures
            available == self.is_available(),
    {
        self.hp != 0
    }
}

impl PokemonView for RemotePokemon {
    fn pokemon(&self) -> (species: u16)
        ensures
            species == self.species,
    {
        self.species
    }

    fn level(&self) -> (level: Level)
        ensures
            level == self.level,
    {
        self.level
    }

    fn fainted(&self) -> (fainted: bool)
        ensures
            fainted == (self.hp.hp == 0),
    {
        self.hp.is_zero()
    }

    fn available(&self) -> (available: bool)
        ensures
            available == (self.hp.hp != 0),
    {
        !self.hp.is_zero()
    }
}

impl PokemonView for Option<RemotePokemon> {
    fn pokemon(&self) -> (species: u16)
        ensures
            species == (match self {
                Some(shown) => shown.species,
                None => 0,
            }),
    {
        match self {
            Some(shown) => shown.species,
            None => 0,
        }
    }

    fn level(&self) -> (level: Level)
        ensures
            level == (match self {
                Some(shown) => shown.level,
                None => 0,
            }),
    {
        match self {
            Some(shown) => shown.level,
            None => 0,
        }
    }

    fn fainted(&self) -> (fainted: bool)
        ensures
            fainted == (self matches Some(shown) && shown.hp.hp == 0),
    {
        match self {
            Some(shown) => shown.hp.is_zero(),
            None => false,
        }
    }

    fn available(&self) -> (available: bool)
        ensures
            available == (self matches Some(shown) && shown.hp.hp != 0),
    {
        match self {
            Some(shown) => !shown.hp.is_zero(),
            None => false,
        }
    }
}

} // verus!
