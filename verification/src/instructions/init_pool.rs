//! Opening of a pool.

use crate::state::{Mint, PoolState, TokenAccount};
use anchor_lang::prelude::Pubkey;
use vstd::prelude::*;

verus! {

/// The accounts of the opening of a pool.
#[derive(Clone, Copy, Debug, PartialEq, Eq)]
pub struct InitializePool {
    /// Who pays for the pool's record and its token accounts.
    pub payer: Pubkey,
    /// The pool's record, to be filled in.
    pub pool_state: PoolState,
    /// The market's authority, which owns the new token accounts.
    pub exchange_authority: Pubkey,
    /// The new reserve of asset A.
    pub reserve_a: TokenAccount,
    /// The new reserve of asset B.
    pub reserve_b: TokenAccount,
    /// The new account for the protocol's tip.
    pub fee_reserve: TokenAccount,
    /// Asset A.
    pub mint_a: Mint,
    /// Asset B.
    pub mint_b: Mint,
    /// The pool-share asset.
    pub pool_mint: Mint,
    /// The token program.
    pub token_program: Pubkey,
    /// The system program.
    pub system_program: Pubkey,
    /// The rent sysvar.
    pub rent: Pubkey,
}

impl InitializePool {
    /// The pool's record as the opening leaves it: the addresses of the
    /// accounts, the tip, and no share outstanding.
    pub open spec fn opened(self, protocol_tip_num: u64, protocol_tip_denom: u64) -> PoolState {
        PoolState {
            reserve_a: self.reserve_a.key,
            reserve_b: self.reserve_b.key,
            mint_a: self.mint_a.key,
            mint_b: self.mint_b.key,
            pool_mint: self.pool_mint.key,
            fee_reserve: self.fee_reserve.key,
            protocol_tip_num,
            protocol_tip_denom,
            amount_minted: 0,
        }
    }
}

/// Opens a pool that keeps `protocol_tip_num / protocol_tip_denom` of
/// withdrawn shares as tip. The fraction must have a denominator and must
/// not exceed one.
pub fn handler(ctx: &mut InitializePool, protocol_tip_num: u64, protocol_tip_denom: u64)
    requires
        protocol_tip_denom > 0,
        protocol_tip_num <= protocol_tip_denom,
    ensures
        final(ctx).pool_state == old(ctx).opened(protocol_tip_num, protocol_tip_denom),
        final(ctx).pool_state.wf(),
        *final(ctx) == (InitializePool { pool_state: final(ctx).pool_state, ..*old(ctx) }),
{
    ctx.pool_state.reserve_a = ctx.reserve_a.key;
    ctx.pool_state.reserve_b = ctx.reserve_b.key;
    ctx.pool_state.mint_a = ctx.mint_a.key;
    ctx.pool_state.mint_b = ctx.mint_b.key;
    ctx.pool_state.pool_mint = ctx.pool_mint.key;
    ctx.pool_state.fee_reserve = ctx.fee_reserve.key;
    ctx.pool_state.protocol_tip_num = protocol_tip_num;
    ctx.pool_state.protocol_tip_denom = protocol_tip_denom;
    ctx.pool_state.amount_minted = 0;
}

} // verus!
