//! The ways in which a call on the store can fail.

use vstd::prelude::*;

verus! {

/// Why a call was refused. Neither failure changes the store.
#[derive(Debug, Clone, Copy, PartialEq, Eq, Structural)]
pub enum ContractError {
    /// The store was never created.
    NotFound,
    /// A caller other than the owner asked for a change.
    Unauthorized,
}

} // verus!
