//! Engine-level identifiers.
//!
//! The execution engine addresses components, vaults and confidential
//! outputs by opaque identifiers; the issuer never looks inside them, so
//! they are modeled here as plain 64-bit values.

use vstd::prelude::*;

verus! {

/// The address of a component (an account) published by the engine.
#[derive(Clone, Copy, Debug, PartialEq, Eq, Structural)]
pub struct ComponentAddress(pub u64);

/// The identifier of one vault inside a component.
#[derive(Clone, Copy, Debug, PartialEq, Eq, Structural)]
pub struct VaultId(pub u64);

/// The identifier of one confidential output.
#[derive(Clone, Copy, Debug, PartialEq, Eq, Structural)]
pub struct UtxoId(pub u64);

} // verus!
