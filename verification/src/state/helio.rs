//! The market: who may sign for the pools, and the fee taken on swaps.

use anchor_lang::prelude::Pubkey;
use vstd::prelude::*;

verus! {

/// One market. Written once when the market is opened.
#[derive(Clone, Copy, Debug, PartialEq, Eq)]
pub struct Helio {
    /// The derived address that signs for every move of pool funds.
    pub exchange_authority: Pubkey,
    /// Who opened the market.
    pub owner: Pubkey,
    /// Numerator of the part of a swap's input that is priced.
    pub lp_reward_num: u64,
    /// Denominator of that part.
    pub lp_reward_denom: u64,
    /// The bump with which `exchange_authority` was derived.
    pub exchange_auth_bump: u8,
}

impl Helio {
    /// Bytes that a stored market takes.
    pub const LEN: usize = 8 + 32 * 2 + 8 * 2 + 1;

    /// The fee fraction has a denominator.
    pub open spec fn wf(self) -> bool {
        self.lp_reward_denom > 0
    }
}

} // verus!
