//! Authorization proofs as the vault consumes them.
//!
//! Signature verification itself is an external primitive: by the time a
//! proof reaches the vault, the host has already resolved it to a caller
//! identity. The vault only distinguishes how the identity was resolved,
//! because the replay rule differs between the two ways.

use vstd::prelude::*;

verus! {

/// A caller identity as resolved by the host's signature primitives.
#[derive(Clone, Copy, PartialEq, Eq, Structural)]
pub enum Signer {
    /// The transaction's own caller, self-authenticating: no signature
    /// payload exists, so no nonce can be persisted for the session.
    Invoker { identity: u64 },
    /// An identity recovered from a verified signature payload.
    Signed { identity: u64 },
}

impl Signer {
    /// The resolved identity, however it was resolved.
    pub open spec fn spec_identity(self) -> u64 {
        match self {
            Signer::Invoker { identity } => identity,
            Signer::Signed { identity } => identity,
        }
    }

    /// The resolved identity, however it was resolved.
    pub fn identity(&self) -> (id: u64)
        ensures
            id == self.spec_identity(),
    {
        match self {
            Signer::Invoker { identity } => *identity,
            Signer::Signed { identity } => *identity,
        }
    }
}

/// An authorization proof: a resolved signer together with the nonce the
/// caller claims for replay protection.
#[derive(Clone, Copy, PartialEq, Eq, Structural)]
pub struct Auth {
    pub signer: Signer,
    pub nonce: u128,
}

} // verus!
