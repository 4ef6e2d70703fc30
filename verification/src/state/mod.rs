//! What is kept for a market and for each of its pools, and what is read
//! from the token ledger.

pub mod helio;
pub mod pool;
pub mod token;

pub use helio::Helio;
pub use pool::PoolState;
pub use token::{Mint, TokenAccount};

use vstd::prelude::*;

verus! {

/// `anchor_lang::prelude::Pubkey`, the address of an account. The library
/// only stores addresses and hands them on; it never looks inside one.
#[verifier::external_type_specification]
#[verifier::external_body]
pub struct ExPubkey(anchor_lang::prelude::Pubkey);

} // verus!
