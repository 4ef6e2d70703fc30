//! Accounting core of a two-asset constant-product market maker.
//!
//! The crate decides, for a pool of two token reserves and a pool-share
//! token, how many shares a deposit mints, what a withdrawal returns and what
//! a swap pays out. It never moves tokens itself: every operation hands back
//! the token-program instructions that carry it out.

pub mod accounting;
pub mod cpi;
pub mod errors;
pub mod instructions;
pub mod math;
pub mod state;

use crate::errors::ErrorCode;
use crate::instructions::{
    Deposit, DepositReceipt, InitializeHelio, InitializeHelioBumps, InitializePool,
    ProvideLiquidity, RemoveLiquidity, Swap, SwapReceipt, Withdrawal, WithdrawalReceipt,
};
use vstd::prelude::*;

verus! {

/// Opens a market. See [`instructions::init_helio::handler`].
pub fn initialize_market(
    ctx: &mut InitializeHelio,
    bumps: InitializeHelioBumps,
    lp_reward_fee: u64,
    helio_trading_fee: u64,
)
    requires
        helio_trading_fee > 0,
    ensures
        final(ctx).helio == old(ctx).opened(bumps, lp_reward_fee, helio_trading_fee),
        final(ctx).helio.wf(),
        *final(ctx) == (InitializeHelio { helio: final(ctx).helio, ..*old(ctx) }),
{
    instructions::init_helio::handler(ctx, bumps, lp_reward_fee, helio_trading_fee)
}

/// Opens a pool. See [`instructions::init_pool::handler`].
pub fn initialize_pool(ctx: &mut InitializePool, protocol_tip_num: u64, protocol_tip_denom: u64)
    requires
        protocol_tip_denom > 0,
        protocol_tip_num <= protocol_tip_denom,
    ensures
        final(ctx).pool_state == old(ctx).opened(protocol_tip_num, protocol_tip_denom),
        final(ctx).pool_state.wf(),
        *final(ctx) == (InitializePool { pool_state: final(ctx).pool_state, ..*old(ctx) }),
{
    instructions::init_pool::handler(ctx, protocol_tip_num, protocol_tip_denom)
}

/// Deposits into a pool. See [`instructions::provide_liquidity::handler`].
pub fn provide_liquidity(ctx: &mut ProvideLiquidity, amount_a: u64, amount_b: u64) -> (r: Result<
    DepositReceipt,
    ErrorCode,
>)
    ensures
        match r {
            Ok(receipt) => {
                &&& old(ctx).quote(amount_a, amount_b) == Ok::<Deposit, ErrorCode>(receipt.deposit)
                &&& receipt.instructions@ == old(ctx).spec_instructions(receipt.deposit)
                &&& *final(ctx) == old(ctx).after(receipt.deposit)
            },
            Err(e) => {
                &&& old(ctx).quote(amount_a, amount_b) == Err::<Deposit, ErrorCode>(e)
                &&& *final(ctx) == *old(ctx)
            },
        },
{
    instructions::provide_liquidity::handler(ctx, amount_a, amount_b)
}

/// Withdraws from a pool. See [`instructions::remove_liquidity::handler`].
pub fn remove_liquidity(ctx: &mut RemoveLiquidity, liq_amt_burn: u64) -> (r: Result<
    WithdrawalReceipt,
    ErrorCode,
>)
    ensures
        match r {
            Ok(receipt) => {
                &&& old(ctx).quote(liq_amt_burn) == Ok::<Withdrawal, ErrorCode>(receipt.withdrawal)
                &&& receipt.instructions@ == old(ctx).spec_instructions(receipt.withdrawal)
                &&& *final(ctx) == old(ctx).after(receipt.withdrawal)
                &&& receipt.withdrawal.return_a <= old(ctx).reserve_a.amount
                &&& receipt.withdrawal.return_b <= old(ctx).reserve_b.amount
            },
            Err(e) => {
                &&& old(ctx).quote(liq_amt_burn) == Err::<Withdrawal, ErrorCode>(e)
                &&& *final(ctx) == *old(ctx)
            },
        },
{
    instructions::remove_liquidity::handler(ctx, liq_amt_burn)
}

/// Swaps asset A for asset B. See [`instructions::swap::handler`].
pub fn swap(ctx: &mut Swap, amount_in: u64) -> (r: Result<SwapReceipt, ErrorCode>)
    ensures
        match r {
            Ok(receipt) => {
                &&& old(ctx).quote(amount_in) == Ok::<u64, ErrorCode>(receipt.amount_out)
                &&& receipt.instructions@ == old(ctx).spec_instructions(
                    amount_in,
                    receipt.amount_out,
                )
                &&& *final(ctx) == old(ctx).after(amount_in, receipt.amount_out)
            },
            Err(e) => {
                &&& old(ctx).quote(amount_in) == Err::<u64, ErrorCode>(e)
                &&& *final(ctx) == *old(ctx)
            },
        },
{
    instructions::swap::handler(ctx, amount_in)
}

} // verus!
