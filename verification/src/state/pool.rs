//! One pool of a pair of assets.

use anchor_lang::prelude::Pubkey;
use vstd::prelude::*;

verus! {

/// One pool. The addresses and the tip are written once; `amount_minted`
/// follows every deposit and withdrawal.
#[derive(Clone, Copy, Debug, PartialEq, Eq)]
pub struct PoolState {
    /// The token account that holds the pool's asset A.
    pub reserve_a: Pubkey,
    /// The token account that holds the pool's asset B.
    pub reserve_b: Pubkey,
    /// Asset A.
    pub mint_a: Pubkey,
    /// Asset B.
    pub mint_b: Pubkey,
    /// The pool-share asset.
    pub pool_mint: Pubkey,
    /// The token account that collects the protocol's tip, in pool shares.
    pub fee_reserve: Pubkey,
    /// Numerator of the part of withdrawn shares kept as tip.
    pub protocol_tip_num: u64,
    /// Denominator of that part.
    pub protocol_tip_denom: u64,
    /// Pool shares outstanding.
    pub amount_minted: u64,
}

impl PoolState {
    /// Bytes that a stored pool takes.
    pub const LEN: usize = 8 + 32 * 7 + 8 * 3;

    /// The tip is a fraction between nothing and all.
    pub open spec fn wf(self) -> bool {
        self.protocol_tip_denom > 0 && self.protocol_tip_num <= self.protocol_tip_denom
    }
}

} // verus!
