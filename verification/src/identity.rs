//! Identifiers of the account's own personas.

use vstd::prelude::*;

verus! {

/// Identifies a persona within the account.
#[derive(Clone, Copy, Debug, PartialEq, Eq, Structural)]
pub struct PersonaId(pub u128);

} // verus!
