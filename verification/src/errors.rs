//! What can go wrong.

use vstd::prelude::*;

verus! {

/// An error of the library.
#[derive(Clone, Debug)]
pub enum OpenVTCError {
    /// Something is missing or wrong in what was configured.
    Config(String),
    /// A message is of no known type; carries the type it claims.
    InvalidMessage(String),
    /// The VTA could not be asked.
    Vta(String),
}

} // verus!
