//! Constants of the protocol as this client speaks it.

use vstd::prelude::*;

verus! {

/// The first item id that stands for an element of this game. Item ids
/// below it belong to other domains.
pub const ELEMENT_ID_OFFSET: u64 = 100;

/// The items-handling flags the client asks for: its own items, those of
/// others and the starting inventory.
pub const ITEMS_HANDLING_ALL: u8 = 7;

} // verus!
