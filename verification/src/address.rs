//! Account identities.

use vstd::prelude::*;

verus! {

/// The identity of an account holder, of an administrator or of a service.
///
/// Two addresses are the same party exactly when their identifiers agree.
#[derive(Clone, Copy, Debug, PartialEq, Eq, Hash, Structural)]
pub struct Address {
    pub id: u64,
}

impl Address {
    /// The address with the given identifier.
    pub fn new(id: u64) -> (a: Address)
        ensures
            a.id == id,
    {
        Address { id }
    }
}

} // verus!
