//! What a scripted effect hands back to the engine.

use crate::moves::{DamageResult, MoveResult};
use crate::pokemon::{Indexed, PokemonIdentifier};
use vstd::prelude::*;

verus! {

/// A creature as a script sees it: the identifier that addresses it.
#[derive(Clone, Copy, Debug, PartialEq, Eq, Structural)]
pub struct ScriptPokemon(pub PokemonIdentifier);

/// Damage as a script computed it.
#[derive(Clone, Copy, Debug)]
pub struct ScriptDamage(pub DamageResult);

/// One outcome that a script emitted.
#[derive(Debug)]
pub struct ScriptMoveResult(pub Indexed<MoveResult>);

impl ScriptMoveResult {
    /// An outcome for a creature.
    pub fn new(pokemon: ScriptPokemon, result: MoveResult) -> (emitted: Self)
        ensures
            emitted.0 == Indexed(pokemon.0, result),
    {
        ScriptMoveResult(Indexed(pokemon.0, result))
    }

    /// A damage outcome for a creature.
    pub fn damage(pokemon: ScriptPokemon, damage: ScriptDamage) -> (emitted: Self)
        ensures
            emitted.0 == Indexed(pokemon.0, MoveResult::Damage(damage.0)),
    {
        Self::new(pokemon, MoveResult::Damage(damage.0))
    }

    /// A healing outcome for a creature. The amount is cut to the 32 bits
    /// that an outcome holds.
    pub fn heal(pokemon: ScriptPokemon, heal: rhai::INT) -> (emitted: Self)
        ensures
            emitted.0 == Indexed(pokemon.0, MoveResult::Heal(heal as i32)),
    {
        Self::new(pokemon, MoveResult::Heal(#[verifier::truncate] (heal as i32)))
    }

    /// A miss, attributed to a creature.
    pub fn miss(pokemon: ScriptPokemon) -> (emitted: Self)
        ensures
            emitted.0 == Indexed(pokemon.0, MoveResult::Miss),
    {
        Self::new(pokemon, MoveResult::Miss)
    }
}

} // verus!
