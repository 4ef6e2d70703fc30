//! The books of one pool over a run of operations.
//!
//! A pool is accounted by three quantities: its two reserves and the pool
//! shares outstanding. This module follows them through any sequence of
//! deposits, withdrawals and swaps, accepted or refused, and states what
//! holds at every point of it.

use crate::errors::ErrorCode;
use crate::instructions::provide_liquidity::{spec_deposit_into, Deposit, ProvideLiquidity};
use crate::instructions::remove_liquidity::{
    lemma_return_at_most_reserve, lemma_return_of_part, spec_withdraw_from, RemoveLiquidity,
    Withdrawal,
};
use crate::instructions::swap::{lemma_amount_out_below_reserve, spec_swap_through, Swap};
use crate::math::{floor_sqrt, lemma_floor_sqrt_exists};
use vstd::prelude::*;

verus! {

/// The quantities by which a pool is accounted.
pub struct PoolLevels {
    /// Units of asset A in reserve.
    pub reserve_a: int,
    /// Units of asset B in reserve.
    pub reserve_b: int,
    /// Pool shares outstanding.
    pub shares: int,
}

/// A request made of a pool, with what the requester holds and the
/// fraction that applies.
pub enum Operation {
    /// A deposit.
    ProvideLiquidity { amount_a: u64, amount_b: u64, provider_amt_a: u64, provider_amt_b: u64 },
    /// A withdrawal.
    RemoveLiquidity {
        liq_amt_burn: u64,
        provider_amt_liq: u64,
        protocol_tip_num: u64,
        protocol_tip_denom: u64,
    },
    /// A swap.
    Swap { amount_in: u64, trader_amt_a: u64, fee_num: u64, fee_denom: u64 },
}

impl PoolLevels {
    /// No quantity is negative, and each fits 64 bits.
    pub open spec fn valid(self) -> bool {
        &&& 0 <= self.reserve_a <= u64::MAX
        &&& 0 <= self.reserve_b <= u64::MAX
        &&& 0 <= self.shares <= u64::MAX
    }

    /// The pool is either untouched or holds something of both assets and
    /// has shares outstanding.
    pub open spec fn balanced(self) -> bool {
        ||| self.reserve_a == 0 && self.reserve_b == 0 && self.shares == 0
        ||| self.reserve_a > 0 && self.reserve_b > 0 && self.shares > 0
    }

    /// Shares that `op` mints on these levels; negative where it burns
    /// some, zero where it is refused. A tip is neither.
    pub open spec fn minted_by(self, op: Operation) -> int {
        match op {
            Operation::ProvideLiquidity { amount_a, amount_b, provider_amt_a, provider_amt_b } => {
                match spec_deposit_into(
                    amount_a,
                    amount_b,
                    provider_amt_a,
                    provider_amt_b,
                    self.reserve_a as u64,
                    self.reserve_b as u64,
                    self.shares as u64,
                ) {
                    Ok(d) => d.minted as int,
                    Err(_) => 0,
                }
            },
            Operation::RemoveLiquidity {
                liq_amt_burn,
                provider_amt_liq,
                protocol_tip_num,
                protocol_tip_denom,
            } => {
                match spec_withdraw_from(
                    liq_amt_burn,
                    provider_amt_liq,
                    self.reserve_a as u64,
                    self.reserve_b as u64,
                    self.shares as u64,
                    protocol_tip_num,
                    protocol_tip_denom,
                ) {
                    Ok(w) => -(w.net_burn as int),
                    Err(_) => 0,
                }
            },
            Operation::Swap { .. } => 0,
        }
    }

    /// The levels after `op`. A refused operation leaves them as they were.
    pub open spec fn step(self, op: Operation) -> PoolLevels {
        match op {
            Operation::ProvideLiquidity { amount_a, amount_b, provider_amt_a, provider_amt_b } => {
                match spec_deposit_into(
                    amount_a,
                    amount_b,
                    provider_amt_a,
                    provider_amt_b,
                    self.reserve_a as u64,
                    self.reserve_b as u64,
                    self.shares as u64,
                ) {
                    Ok(d) => PoolLevels {
                        reserve_a: self.reserve_a + d.deposit_a,
                        reserve_b: self.reserve_b + d.deposit_b,
                        shares: self.shares + d.minted,
                    },
                    Err(_) => self,
                }
            },
            Operation::RemoveLiquidity {
                liq_amt_burn,
                provider_amt_liq,
                protocol_tip_num,
                protocol_tip_denom,
            } => {
                match spec_withdraw_from(
                    liq_amt_burn,
                    provider_amt_liq,
                    self.reserve_a as u64,
                    self.reserve_b as u64,
                    self.shares as u64,
                    protocol_tip_num,
                    protocol_tip_denom,
                ) {
                    Ok(w) => PoolLevels {
                        reserve_a: self.reserve_a - w.return_a,
                        reserve_b: self.reserve_b - w.return_b,
                        shares: self.shares - w.net_burn,
                    },
                    Err(_) => self,
                }
            },
            Operation::Swap { amount_in, trader_amt_a, fee_num, fee_denom } => {
                match spec_swap_through(
                    amount_in,
                    trader_amt_a,
                    fee_num,
                    fee_denom,
                    self.reserve_a as u64,
                    self.reserve_b as u64,
                ) {
                    Ok(out) => PoolLevels {
                        reserve_a: self.reserve_a + amount_in,
                        reserve_b: self.reserve_b - out,
                        shares: self.shares,
                    },
                    Err(_) => self,
                }
            },
        }
    }

    /// The levels after all of `ops`, in order.
    pub open spec fn run(self, ops: Seq<Operation>) -> PoolLevels
        decreases ops.len(),
    {
        if ops.len() == 0 {
            self
        } else {
            self.run(ops.drop_last()).step(ops.last())
        }
    }

    /// Shares minted, less shares burned, over all of `ops`.
    pub open spec fn net_minted(self, ops: Seq<Operation>) -> int
        decreases ops.len(),
    {
        if ops.len() == 0 {
            0
        } else {
            self.net_minted(ops.drop_last()) + self.run(ops.drop_last()).minted_by(ops.last())
        }
    }
}

impl ProvideLiquidity {
    /// The pool's levels as these accounts show them.
    pub open spec fn levels(self) -> PoolLevels {
        PoolLevels {
            reserve_a: self.reserve_a.amount as int,
            reserve_b: self.reserve_b.amount as int,
            shares: self.pool_mint.supply as int,
        }
    }

    /// A deposit through these accounts, as a request.
    pub open spec fn operation(self, amount_a: u64, amount_b: u64) -> Operation {
        Operation::ProvideLiquidity {
            amount_a,
            amount_b,
            provider_amt_a: self.provider_reserve_a.amount,
            provider_amt_b: self.provider_reserve_b.amount,
        }
    }
}

impl RemoveLiquidity {
    /// The pool's levels as these accounts show them.
    pub open spec fn levels(self) -> PoolLevels {
        PoolLevels {
            reserve_a: self.reserve_a.amount as int,
            reserve_b: self.reserve_b.amount as int,
            shares: self.pool_mint.supply as int,
        }
    }

    /// A withdrawal through these accounts, as a request.
    pub open spec fn operation(self, liq_amt_burn: u64) -> Operation {
        Operation::RemoveLiquidity {
            liq_amt_burn,
            provider_amt_liq: self.provider_pool_reserve.amount,
            protocol_tip_num: self.pool_state.protocol_tip_num,
            protocol_tip_denom: self.pool_state.protocol_tip_denom,
        }
    }
}

impl Swap {
    /// The pool's levels as these accounts show them, with the shares
    /// outstanding, which a swap does not read.
    pub open spec fn levels(self, shares: u64) -> PoolLevels {
        PoolLevels {
            reserve_a: self.reserve_a.amount as int,
            reserve_b: self.reserve_b.amount as int,
            shares: shares as int,
        }
    }

    /// A swap through these accounts, as a request.
    pub open spec fn operation(self, amount_in: u64) -> Operation {
        Operation::Swap {
            amount_in,
            trader_amt_a: self.trader_reserve_a.amount,
            fee_num: self.helio.lp_reward_num,
            fee_denom: self.helio.lp_reward_denom,
        }
    }
}

/// What a deposit does to the accounts is one step of the books: the
/// accounts after an accepted deposit show the levels after the step, with
/// the pool's own count of shares equal to the shares outstanding, and a
/// refused deposit is a step that changes nothing.
pub proof fn lemma_deposit_is_step(ctx: ProvideLiquidity, amount_a: u64, amount_b: u64)
    ensures
        match ctx.quote(amount_a, amount_b) {
            Ok(d) => {
                &&& ctx.after(d).levels() == ctx.levels().step(ctx.operation(amount_a, amount_b))
                &&& ctx.after(d).pool_state.amount_minted == ctx.after(d).levels().shares
            },
            Err(_) => ctx.levels().step(ctx.operation(amount_a, amount_b)) == ctx.levels(),
        },
{
}

/// What a withdrawal does to the accounts is one step of the books, and
/// leaves the pool's own count of shares equal to the shares outstanding.
pub proof fn lemma_withdrawal_is_step(ctx: RemoveLiquidity, liq_amt_burn: u64)
    ensures
        match ctx.quote(liq_amt_burn) {
            Ok(w) => {
                &&& ctx.after(w).levels() == ctx.levels().step(ctx.operation(liq_amt_burn))
                &&& ctx.after(w).pool_state.amount_minted == ctx.after(w).levels().shares
            },
            Err(_) => ctx.levels().step(ctx.operation(liq_amt_burn)) == ctx.levels(),
        },
{
    lemma_step_keeps_valid(ctx.levels(), ctx.operation(liq_amt_burn));
}

/// What a swap does to the accounts is one step of the books.
pub proof fn lemma_swap_is_step(ctx: Swap, shares: u64, amount_in: u64)
    ensures
        match ctx.quote(amount_in) {
            Ok(out) => ctx.after(amount_in, out).levels(shares) == ctx.levels(shares).step(
                ctx.operation(amount_in),
            ),
            Err(_) => ctx.levels(shares).step(ctx.operation(amount_in)) == ctx.levels(shares),
        },
{
}

/// No operation takes a quantity below zero or past 64 bits.
pub proof fn lemma_step_keeps_valid(levels: PoolLevels, op: Operation)
    requires
        levels.valid(),
    ensures
        levels.step(op).valid(),
{
    match op {
        Operation::RemoveLiquidity {
            liq_amt_burn,
            provider_amt_liq,
            protocol_tip_num,
            protocol_tip_denom,
        } => {
            match spec_withdraw_from(
                liq_amt_burn,
                provider_amt_liq,
                levels.reserve_a as u64,
                levels.reserve_b as u64,
                levels.shares as u64,
                protocol_tip_num,
                protocol_tip_denom,
            ) {
                Ok(w) => {
                    lemma_return_at_most_reserve(
                        w.net_burn as nat,
                        levels.reserve_a as nat,
                        levels.shares as nat,
                    );
                    lemma_return_at_most_reserve(
                        w.net_burn as nat,
                        levels.reserve_b as nat,
                        levels.shares as nat,
                    );
                },
                Err(_) => {},
            }
        },
        _ => {},
    }
}

/// Over any run of operations, the shares outstanding are what they were at
/// the start plus all shares minted less all shares burned, tips counting as
/// neither; and no reserve and no share count is ever negative.
pub proof fn lemma_books_balance(levels: PoolLevels, ops: Seq<Operation>)
    requires
        levels.valid(),
    ensures
        levels.run(ops).valid(),
        levels.run(ops).shares == levels.shares + levels.net_minted(ops),
    decreases ops.len(),
{
    if ops.len() > 0 {
        lemma_books_balance(levels, ops.drop_last());
        lemma_step_keeps_valid(levels.run(ops.drop_last()), ops.last());
    }
}

/// A pool that holds something of both assets and has shares outstanding
/// stays so, or is emptied altogether, whatever is asked of it. An untouched
/// pool stays untouched or comes to hold both assets and shares under every
/// withdrawal and under every deposit of two amounts that are not zero.
pub proof fn lemma_step_keeps_balanced(levels: PoolLevels, op: Operation)
    requires
        levels.valid(),
        levels.balanced(),
        levels.shares == 0 ==> match op {
            Operation::ProvideLiquidity { amount_a, amount_b, .. } => amount_a > 0 && amount_b > 0,
            Operation::RemoveLiquidity { .. } => true,
            Operation::Swap { .. } => false,
        },
    ensures
        levels.step(op).balanced(),
{
    let reserve_a = levels.reserve_a as nat;
    let reserve_b = levels.reserve_b as nat;
    let shares = levels.shares as nat;
    match op {
        Operation::ProvideLiquidity { amount_a, amount_b, provider_amt_a, provider_amt_b } => {
            if shares == 0 && amount_a * amount_b <= u64::MAX {
                let product = (amount_a * amount_b) as nat;
                lemma_floor_sqrt_exists(product);
                assert(product >= 1) by (nonlinear_arith)
                    requires
                        product == amount_a * amount_b,
                        amount_a > 0,
                        amount_b > 0,
                ;
                assert(floor_sqrt(product) > 0) by {
                    if floor_sqrt(product) == 0 {
                        assert((0nat + 1) * (0nat + 1) == 1) by (nonlinear_arith);
                    }
                }
            }
        },
        Operation::RemoveLiquidity {
            liq_amt_burn,
            provider_amt_liq,
            protocol_tip_num,
            protocol_tip_denom,
        } => {
            match spec_withdraw_from(
                liq_amt_burn,
                provider_amt_liq,
                levels.reserve_a as u64,
                levels.reserve_b as u64,
                levels.shares as u64,
                protocol_tip_num,
                protocol_tip_denom,
            ) {
                Ok(w) => {
                    lemma_return_of_part(w.net_burn as nat, reserve_a, shares);
                    lemma_return_of_part(w.net_burn as nat, reserve_b, shares);
                },
                Err(_) => {},
            }
        },
        Operation::Swap { amount_in, trader_amt_a, fee_num, fee_denom } => {
            lemma_amount_out_below_reserve(
                amount_in as nat,
                fee_num as nat,
                fee_denom as nat,
                reserve_a,
                reserve_b,
            );
        },
    }
}

/// Over a run of operations on a pool that holds both assets and shares at
/// every point, the pool never holds one without the others.
pub proof fn lemma_live_pool_stays_balanced(levels: PoolLevels, ops: Seq<Operation>)
    requires
        levels.valid(),
        levels.balanced(),
        forall|i: int| 0 <= i < ops.len() ==> #[trigger] levels.run(ops.take(i)).shares > 0,
    ensures
        levels.run(ops).balanced(),
    decreases ops.len(),
{
    if ops.len() > 0 {
        let before = ops.drop_last();
        assert forall|i: int| 0 <= i < before.len() implies #[trigger] levels.run(
            before.take(i),
        ).shares > 0 by {
            assert(before.take(i) =~= ops.take(i));
        }
        lemma_live_pool_stays_balanced(levels, before);
        lemma_books_balance(levels, before);
        assert(ops.take(ops.len() - 1) =~= before);
        lemma_step_keeps_balanced(levels.run(before), ops.last());
    }
}

/// The code kept for a check on a minimum return is never given: no
/// deposit, withdrawal or swap is refused with it.
pub proof fn lemma_minimum_return_never_refused(
    deposit: ProvideLiquidity,
    amount_a: u64,
    amount_b: u64,
    withdrawal: RemoveLiquidity,
    liq_amt_burn: u64,
    swap: Swap,
    amount_in: u64,
)
    ensures
        deposit.quote(amount_a, amount_b) != Err::<Deposit, ErrorCode>(
            ErrorCode::InsufficientReturnedAmount,
        ),
        withdrawal.quote(liq_amt_burn) != Err::<Withdrawal, ErrorCode>(
            ErrorCode::InsufficientReturnedAmount,
        ),
        swap.quote(amount_in) != Err::<u64, ErrorCode>(ErrorCode::InsufficientReturnedAmount),
{
}

} // verus!
