//! What the battle asks of the engine that resolves moves, and of the
//! formula that computes damage.

use crate::moves::{CriticalRate, DamageKind, DamageResult, MoveData, MoveResult};
use crate::player::{players_wf, BattlePlayer};
use crate::pokemon::{BattlePokemon, Indexed, PokemonIdentifier};
use firecore_pokedex::moves::MoveCategory;
use firecore_pokedex::types::PokemonType;
use rand::rngs::StdRng;
use vstd::prelude::*;

verus! {

/// Resolves a move into the outcomes it has, without applying them.
///
/// The battle asks nothing of the outcomes: it applies each to the creature
/// it names, if there is one, and drops the action where the engine fails.
pub trait MoveEngine {
    /// Why a move could not be resolved.
    type Error;

    /// The outcomes of the move `m`, used by the creature that `user`
    /// addresses on the target named by `targeting`, among `players`.
    fn execute(
        &self,
        random: &mut StdRng,
        m: &MoveData,
        user: PokemonIdentifier,
        targeting: Option<PokemonIdentifier>,
        players: &Vec<BattlePlayer>,
    ) -> (output: Result<Vec<Indexed<MoveResult>>, Self::Error>)
        requires
            players_wf(players@),
    ;
}

/// Computes the damage of a damaging action.
///
/// The library asks nothing of the result: it passes it on as an outcome.
pub trait DamageFormula {
    /// The damage that `user` does to `target` with an action of the given
    /// kind, for a move of the given category, type and critical rate.
    fn damage_kind(
        &self,
        random: &mut StdRng,
        user: &BattlePokemon,
        target: &BattlePokemon,
        kind: DamageKind,
        category: MoveCategory,
        move_type: PokemonType,
        crit_rate: CriticalRate,
    ) -> (damage: DamageResult);
}

} // verus!
