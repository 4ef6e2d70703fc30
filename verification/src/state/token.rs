//! What the library reads of the token ledger's accounts.

use anchor_lang::prelude::Pubkey;
use vstd::prelude::*;

verus! {

/// A token account as the ledger last reported it.
#[derive(Clone, Copy, Debug, PartialEq, Eq)]
pub struct TokenAccount {
    /// The account's own address.
    pub key: Pubkey,
    /// Who may move tokens out of it.
    pub owner: Pubkey,
    /// Tokens held.
    pub amount: u64,
}

/// A token mint as the ledger last reported it.
#[derive(Clone, Copy, Debug, PartialEq, Eq)]
pub struct Mint {
    /// The mint's own address.
    pub key: Pubkey,
    /// Tokens in existence.
    pub supply: u64,
}

} // verus!
