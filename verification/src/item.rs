//! Items, as far as a battle reads their definitions.

use crate::moves::ItemId;
use crate::pokemon::ItemAction;
use vstd::prelude::*;

verus! {

/// What using an item does.
#[derive(Debug)]
pub enum ItemUsageKind {
    /// The item applies the listed actions to a creature.
    Actions(Vec<ItemAction>),
    /// The item runs a script, which this library does not hold.
    Script,
    /// The item catches a wild creature.
    Pokeball,
    /// The item does nothing and can always be used.
    Inert,
}

/// The definition of an item.
#[derive(Debug)]
pub struct ItemData {
    pub id: ItemId,
    pub usage: ItemUsageKind,
}

} // verus!
