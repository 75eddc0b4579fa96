//! A single-asset yield vault.
//!
//! Depositors hand units of one underlying fungible asset to the vault and
//! receive shares: proportional claims on the vault's pooled balance,
//! including any yield that arrives between deposits. Withdrawing burns
//! shares and pays out a proportional amount of the asset, rounding down.
//! Every state-mutating operation is gated behind the administrator's
//! authorization and a per-identity monotonic nonce that rules out replay.
//!
//! The crate holds the share-accounting engine and the authorization and
//! replay guard. The persistent host store, the asset contract itself and
//! the signature primitives are external collaborators: the vault consumes
//! a resolved caller identity and fresh asset-balance readings, and reports
//! the amount each withdrawal pays out, so a thin host layer can move the
//! actual funds.

pub mod auth;
pub mod ledger;
pub mod vault;
