//! Swap of asset A for asset B at the constant-product price.

use crate::cpi::{CpiContext, SignerSeeds, TokenInstruction, Transfer};
use crate::errors::ErrorCode;
use crate::math::mul_div;
use crate::state::{Helio, PoolState, TokenAccount};
use anchor_lang::prelude::Pubkey;
use vstd::prelude::*;

verus! {

/// The accounts of a swap.
#[derive(Clone, Copy, Debug, PartialEq, Eq)]
pub struct Swap {
    /// Who swaps.
    pub trader: Pubkey,
    /// The pool's reserve of asset A.
    pub reserve_a: TokenAccount,
    /// The pool's reserve of asset B.
    pub reserve_b: TokenAccount,
    /// The trader's account of asset A, which pays.
    pub trader_reserve_a: TokenAccount,
    /// The trader's account of asset B, which is paid.
    pub trader_reserve_b: TokenAccount,
    /// The account presented as the market's authority. What signs for the
    /// reserves is the authority that the market itself names.
    pub exchange_authority: Pubkey,
    /// The market.
    pub helio: Helio,
    /// The pool.
    pub pool_state: PoolState,
    /// The token program.
    pub token_program: Pubkey,
}

/// What a swap pays, and the instructions that carry it out.
#[derive(Clone, Debug, PartialEq, Eq)]
pub struct SwapReceipt {
    /// Units of asset B paid to the trader.
    pub amount_out: u64,
    /// First the trader's payment into reserve A, then the payout from
    /// reserve B.
    pub instructions: Vec<TokenInstruction>,
}

/// The part of `amount_in` that is priced: `floor(fee_num * amount_in / fee_denom)`.
pub open spec fn effective_in(amount_in: nat, fee_num: nat, fee_denom: nat) -> nat {
    fee_num * amount_in / fee_denom
}

/// What the constant-product rule pays for `amount_in`:
/// `floor(reserve_b * e / (reserve_a + e))`, with `e` the priced part of the
/// input.
pub open spec fn amount_out(
    amount_in: nat,
    fee_num: nat,
    fee_denom: nat,
    reserve_a: nat,
    reserve_b: nat,
) -> nat {
    let e = effective_in(amount_in, fee_num, fee_denom);
    reserve_b * e / (reserve_a + e)
}

/// Every step of the payout's computation stays within 64 bits and no
/// divisor is zero.
pub open spec fn amount_out_fits(
    amount_in: u64,
    fee_num: u64,
    fee_denom: u64,
    reserve_a: u64,
    reserve_b: u64,
) -> bool {
    let e = effective_in(amount_in as nat, fee_num as nat, fee_denom as nat);
    &&& fee_denom > 0
    &&& fee_num * amount_in <= u64::MAX
    &&& reserve_b * e <= u64::MAX
    &&& 0 < reserve_a + e <= u64::MAX
}

/// The payout where it can be computed, `None` where a step fails.
pub open spec fn spec_checked_amt_out(
    amount_in: u64,
    fee_num: u64,
    fee_denom: u64,
    reserve_a: u64,
    reserve_b: u64,
) -> Option<u64> {
    if amount_out_fits(amount_in, fee_num, fee_denom, reserve_a, reserve_b) {
        Some(
            amount_out(
                amount_in as nat,
                fee_num as nat,
                fee_denom as nat,
                reserve_a as nat,
                reserve_b as nat,
            ) as u64,
        )
    } else {
        None
    }
}

/// What a swap of `amount_in` by a trader who holds `trader_amt_a` comes to:
/// the payout, or the reason for which it is refused. The checks are made in
/// this order.
///
/// The input must not be zero and must not exceed what the trader holds. The
/// payout must not exceed reserve B, and reserve A must be able to take the
/// whole input.
pub open spec fn spec_swap_through(
    amount_in: u64,
    trader_amt_a: u64,
    fee_num: u64,
    fee_denom: u64,
    reserve_amt_a: u64,
    reserve_amt_b: u64,
) -> Result<u64, ErrorCode> {
    if amount_in == 0 {
        Err(ErrorCode::DepositAmountIsZero)
    } else if amount_in > trader_amt_a {
        Err(ErrorCode::InsufficientTokenBalance)
    } else {
        match spec_checked_amt_out(amount_in, fee_num, fee_denom, reserve_amt_a, reserve_amt_b) {
            None => Err(ErrorCode::ArithmeticFailure),
            Some(out) => if out > reserve_amt_b {
                Err(ErrorCode::InsufficientLiquidityPresent)
            } else if reserve_amt_a + amount_in > u64::MAX {
                Err(ErrorCode::ArithmeticFailure)
            } else {
                Ok(out)
            },
        }
    }
}

/// A payout never exceeds the reserve it is paid from.
pub proof fn lemma_amount_out_at_most_reserve(
    amount_in: nat,
    fee_num: nat,
    fee_denom: nat,
    reserve_a: nat,
    reserve_b: nat,
)
    requires
        reserve_a + effective_in(amount_in, fee_num, fee_denom) > 0,
    ensures
        amount_out(amount_in, fee_num, fee_denom, reserve_a, reserve_b) <= reserve_b,
{
    let e = effective_in(amount_in, fee_num, fee_denom);
    assert(reserve_b * e / (reserve_a + e) <= reserve_b) by (nonlinear_arith)
        requires
            reserve_a + e > 0,
    ;
}

/// The payout for `amount_in`, or `None` where a product or the sum leaves
/// 64 bits or a divisor is zero.
pub fn checked_amt_out(
    amount_in: u64,
    liquidity_fee_num: u64,
    liquidity_fee_denom: u64,
    reserve_amt_a: u64,
    reserve_amt_b: u64,
) -> (r: Option<u64>)
    ensures
        r == spec_checked_amt_out(
            amount_in,
            liquidity_fee_num,
            liquidity_fee_denom,
            reserve_amt_a,
            reserve_amt_b,
        ),
{
    let delta_a: u64 = match mul_div(liquidity_fee_num, amount_in, liquidity_fee_denom) {
        Some(d) => d,
        None => { return None; },
    };
    let numerator: u64 = match reserve_amt_b.checked_mul(delta_a) {
        Some(n) => n,
        None => { return None; },
    };
    let denominator: u64 = match reserve_amt_a.checked_add(delta_a) {
        Some(d) => d,
        None => { return None; },
    };
    numerator.checked_div(denominator)
}

/// The payout of the constant-product rule for `amount_in`.
pub fn calculate_amt_out(
    amount_in: u64,
    liquidity_fee_num: u64,
    liquidity_fee_denom: u64,
    reserve_amt_a: u64,
    reserve_amt_b: u64,
) -> (out: u64)
    requires
        amount_out_fits(
            amount_in,
            liquidity_fee_num,
            liquidity_fee_denom,
            reserve_amt_a,
            reserve_amt_b,
        ),
    ensures
        out == amount_out(
            amount_in as nat,
            liquidity_fee_num as nat,
            liquidity_fee_denom as nat,
            reserve_amt_a as nat,
            reserve_amt_b as nat,
        ),
{
    let delta_a: u64 = liquidity_fee_num * amount_in / liquidity_fee_denom;
    let numerator: u64 = reserve_amt_b * delta_a;
    let denominator: u64 = reserve_amt_a + delta_a;
    numerator / denominator
}

impl Swap {
    /// The seeds of the market's authority.
    pub open spec fn spec_signer_seeds(self) -> SignerSeeds {
        SignerSeeds { owner: self.helio.owner, bump: self.helio.exchange_auth_bump }
    }

    /// The trader's payment into reserve A, authorized by the trader.
    pub open spec fn spec_transfer_to_reserve_a_ctx(self) -> CpiContext<Transfer> {
        CpiContext {
            program: self.token_program,
            accounts: Transfer {
                from: self.trader_reserve_a.key,
                to: self.reserve_a.key,
                authority: self.trader,
            },
            signer_seeds: None,
        }
    }

    /// The payout from reserve B, authorized by the authority that the
    /// market names.
    pub open spec fn spec_transfer_to_trader_b_ctx(self) -> CpiContext<Transfer> {
        CpiContext {
            program: self.token_program,
            accounts: Transfer {
                from: self.reserve_b.key,
                to: self.trader_reserve_b.key,
                authority: self.helio.exchange_authority,
            },
            signer_seeds: None,
        }
    }

    /// What a swap of `amount_in` through these accounts comes to.
    pub open spec fn quote(self, amount_in: u64) -> Result<u64, ErrorCode> {
        spec_swap_through(
            amount_in,
            self.trader_reserve_a.amount,
            self.helio.lp_reward_num,
            self.helio.lp_reward_denom,
            self.reserve_a.amount,
            self.reserve_b.amount,
        )
    }

    /// The instructions of a swap of `amount_in` for `amount_out`.
    pub open spec fn spec_instructions(self, amount_in: u64, amount_out: u64) -> Seq<
        TokenInstruction,
    > {
        seq![
            TokenInstruction::Transfer(
                CpiContext {
                    signer_seeds: Some(self.spec_signer_seeds()),
                    ..self.spec_transfer_to_reserve_a_ctx()
                },
                amount_in,
            ),
            TokenInstruction::Transfer(
                CpiContext {
                    signer_seeds: Some(self.spec_signer_seeds()),
                    ..self.spec_transfer_to_trader_b_ctx()
                },
                amount_out,
            ),
        ]
    }

    /// The accounts once the whole input has gone into reserve A and the
    /// payout has left reserve B. The trader's own accounts stay as they
    /// were read.
    pub open spec fn after(self, amount_in: u64, amount_out: u64) -> Swap {
        Swap {
            reserve_a: TokenAccount {
                amount: (self.reserve_a.amount + amount_in) as u64,
                ..self.reserve_a
            },
            reserve_b: TokenAccount {
                amount: (self.reserve_b.amount - amount_out) as u64,
                ..self.reserve_b
            },
            ..self
        }
    }

    /// The accounts belong together: the trader owns both of the trader's
    /// token accounts, the authority is the market's, and the reserves are
    /// the pool's.
    pub open spec fn wired(self) -> bool {
        &&& self.trader_reserve_a.owner == self.trader
        &&& self.trader_reserve_b.owner == self.trader
        &&& self.helio.exchange_authority == self.exchange_authority
        &&& self.pool_state.reserve_a == self.reserve_a.key
        &&& self.pool_state.reserve_b == self.reserve_b.key
    }

    /// The call that moves the trader's payment into reserve A.
    pub fn transfer_to_reserve_a_ctx(&self) -> (ctx: CpiContext<Transfer>)
        ensures
            ctx == self.spec_transfer_to_reserve_a_ctx(),
    {
        CpiContext {
            program: self.token_program,
            accounts: Transfer {
                from: self.trader_reserve_a.key,
                to: self.reserve_a.key,
                authority: self.trader,
            },
            signer_seeds: None,
        }
    }

    /// The call that moves the payout from reserve B to the trader.
    pub fn transfer_to_trader_b_ctx(&self) -> (ctx: CpiContext<Transfer>)
        ensures
            ctx == self.spec_transfer_to_trader_b_ctx(),
    {
        CpiContext {
            program: self.token_program,
            accounts: Transfer {
                from: self.reserve_b.key,
                to: self.trader_reserve_b.key,
                authority: self.helio.exchange_authority,
            },
            signer_seeds: None,
        }
    }
}

/// Swaps `amount_in` of asset A for asset B.
///
/// Refuses a zero input, then an input above the trader's balance of A. The
/// payout is priced on the reserves as they stand; the whole input then
/// goes into reserve A, so that the part that was not priced stays with the
/// pool. On an error the accounts are as before.
pub fn handler(ctx: &mut Swap, amount_in: u64) -> (r: Result<SwapReceipt, ErrorCode>)
    ensures
        match r {
            Ok(receipt) => {
                &&& old(ctx).quote(amount_in) == Ok::<u64, ErrorCode>(receipt.amount_out)
                &&& receipt.instructions@ == old(ctx).spec_instructions(
                    amount_in,
                    receipt.amount_out,
                )
                &&& *final(ctx) == old(ctx).after(amount_in, receipt.amount_out)
            },
            Err(e) => {
                &&& old(ctx).quote(amount_in) == Err::<u64, ErrorCode>(e)
                &&& *final(ctx) == *old(ctx)
            },
        },
{
    let trader_reserve_a_amt: u64 = ctx.trader_reserve_a.amount;
    let reserve_amt_a: u64 = ctx.reserve_a.amount;
    let reserve_amt_b: u64 = ctx.reserve_b.amount;
    let liquidity_fee_num: u64 = ctx.helio.lp_reward_num;
    let liquidity_fee_denom: u64 = ctx.helio.lp_reward_denom;

    if amount_in == 0 {
        return Err(ErrorCode::DepositAmountIsZero);
    }
    if amount_in > trader_reserve_a_amt {
        return Err(ErrorCode::InsufficientTokenBalance);
    }
    let amount_out: u64 = match checked_amt_out(
        amount_in,
        liquidity_fee_num,
        liquidity_fee_denom,
        reserve_amt_a,
        reserve_amt_b,
    ) {
        Some(out) => out,
        None => { return Err(ErrorCode::ArithmeticFailure); },
    };
    if amount_out > reserve_amt_b {
        return Err(ErrorCode::InsufficientLiquidityPresent);
    }
    let new_reserve_a: u64 = match reserve_amt_a.checked_add(amount_in) {
        Some(sum) => sum,
        None => { return Err(ErrorCode::ArithmeticFailure); },
    };

    let seeds = SignerSeeds { owner: ctx.helio.owner, bump: ctx.helio.exchange_auth_bump };
    let mut instructions: Vec<TokenInstruction> = Vec::new();
    instructions.push(
        TokenInstruction::Transfer(ctx.transfer_to_reserve_a_ctx().with_signer(seeds), amount_in),
    );
    instructions.push(
        TokenInstruction::Transfer(ctx.transfer_to_trader_b_ctx().with_signer(seeds), amount_out),
    );
    assert(instructions@ =~= old(ctx).spec_instructions(amount_in, amount_out));

    ctx.reserve_a.amount = new_reserve_a;
    ctx.reserve_b.amount = reserve_amt_b - amount_out;
    Ok(SwapReceipt { amount_out, instructions })
}

/// A swap asks for nothing that its authorizer may not give. Whatever the
/// accounts, the payout from reserve B is authorized by the authority that
/// the market names and by no other. Where the accounts belong together, the
/// owner of the trader's account authorizes the payment of the input, which
/// goes into the pool's reserve A, and the payout leaves the pool's reserve
/// B.
pub proof fn lemma_swap_instructions_authorized(ctx: Swap, amount_in: u64, amount_out: u64)
    ensures
        ctx.spec_instructions(amount_in, amount_out).len() == 2,
        ctx.spec_instructions(amount_in, amount_out)[0].authority() == ctx.trader,
        ctx.spec_instructions(amount_in, amount_out)[1].authority()
            == ctx.helio.exchange_authority,
        ctx.wired() ==> ({
            let instructions = ctx.spec_instructions(amount_in, amount_out);
            &&& instructions.len() == 2
            &&& instructions[0].source() == ctx.trader_reserve_a.key
            &&& instructions[0].destination() == ctx.pool_state.reserve_a
            &&& instructions[0].authority() == ctx.trader_reserve_a.owner
            &&& instructions[0].amount() == amount_in
            &&& instructions[1].source() == ctx.pool_state.reserve_b
            &&& instructions[1].destination() == ctx.trader_reserve_b.key
            &&& instructions[1].authority() == ctx.helio.exchange_authority
            &&& instructions[1].amount() == amount_out
        }),
{
}

/// No swap is refused for want of liquidity: the rule never pays more than
/// reserve B holds.
pub proof fn lemma_swap_never_lacks_liquidity(ctx: Swap, amount_in: u64)
    ensures
        ctx.quote(amount_in) != Err::<u64, ErrorCode>(ErrorCode::InsufficientLiquidityPresent),
{
    if amount_out_fits(
        amount_in,
        ctx.helio.lp_reward_num,
        ctx.helio.lp_reward_denom,
        ctx.reserve_a.amount,
        ctx.reserve_b.amount,
    ) {
        lemma_amount_out_at_most_reserve(
            amount_in as nat,
            ctx.helio.lp_reward_num as nat,
            ctx.helio.lp_reward_denom as nat,
            ctx.reserve_a.amount as nat,
            ctx.reserve_b.amount as nat,
        );
    }
}

/// With something in both reserves, a swap pays strictly less than reserve B
/// holds.
pub proof fn lemma_amount_out_below_reserve(
    amount_in: nat,
    fee_num: nat,
    fee_denom: nat,
    reserve_a: nat,
    reserve_b: nat,
)
    requires
        reserve_a > 0,
        reserve_b > 0,
    ensures
        amount_out(amount_in, fee_num, fee_denom, reserve_a, reserve_b) < reserve_b,
{
    let e = effective_in(amount_in, fee_num, fee_denom);
    assert(reserve_b * e / (reserve_a + e) < reserve_b) by (nonlinear_arith)
        requires
            reserve_a > 0,
            reserve_b > 0,
            e >= 0,
    ;
}

/// A larger input is never paid less: the payout does not decrease when
/// `amount_in` grows and fee and reserves stay the same.
pub proof fn lemma_amount_out_monotonic(
    smaller_in: nat,
    larger_in: nat,
    fee_num: nat,
    fee_denom: nat,
    reserve_a: nat,
    reserve_b: nat,
)
    requires
        smaller_in <= larger_in,
        fee_denom > 0,
        reserve_a + effective_in(smaller_in, fee_num, fee_denom) > 0,
    ensures
        amount_out(smaller_in, fee_num, fee_denom, reserve_a, reserve_b) <= amount_out(
            larger_in,
            fee_num,
            fee_denom,
            reserve_a,
            reserve_b,
        ),
{
    let e1 = effective_in(smaller_in, fee_num, fee_denom);
    let e2 = effective_in(larger_in, fee_num, fee_denom);
    assert(e1 <= e2) by (nonlinear_arith)
        requires
            smaller_in <= larger_in,
            fee_denom > 0,
            e1 == fee_num * smaller_in / fee_denom,
            e2 == fee_num * larger_in / fee_denom,
    ;
    let q1 = reserve_b * e1 / (reserve_a + e1);
    let q2 = reserve_b * e2 / (reserve_a + e2);
    assert(q1 * (reserve_a + e1) <= reserve_b * e1 && q1 <= reserve_b) by (nonlinear_arith)
        requires
            reserve_a + e1 > 0,
            q1 == reserve_b * e1 / (reserve_a + e1),
    ;
    assert(q1 * (reserve_a + e2) <= reserve_b * e2) by (nonlinear_arith)
        requires
            q1 * (reserve_a + e1) <= reserve_b * e1,
            q1 <= reserve_b,
            e1 <= e2,
    ;
    assert(q1 <= q2) by (nonlinear_arith)
        requires
            q1 * (reserve_a + e2) <= reserve_b * e2,
            reserve_a + e2 > 0,
            q2 == reserve_b * e2 / (reserve_a + e2),
    ;
}

/// Of two swaps that the same accounts accept, the one with the larger input
/// is paid at least as much; and where both reserves hold something, every
/// accepted swap pays strictly less than reserve B holds.
pub proof fn lemma_swap_payout(ctx: Swap, smaller_in: u64, larger_in: u64)
    requires
        smaller_in <= larger_in,
        ctx.quote(smaller_in) is Ok,
        ctx.quote(larger_in) is Ok,
    ensures
        ctx.quote(smaller_in)->Ok_0 <= ctx.quote(larger_in)->Ok_0,
        ctx.reserve_a.amount > 0 && ctx.reserve_b.amount > 0 ==> ctx.quote(larger_in)->Ok_0
            < ctx.reserve_b.amount,
{
    lemma_amount_out_monotonic(
        smaller_in as nat,
        larger_in as nat,
        ctx.helio.lp_reward_num as nat,
        ctx.helio.lp_reward_denom as nat,
        ctx.reserve_a.amount as nat,
        ctx.reserve_b.amount as nat,
    );
    if ctx.reserve_a.amount > 0 && ctx.reserve_b.amount > 0 {
        lemma_amount_out_below_reserve(
            larger_in as nat,
            ctx.helio.lp_reward_num as nat,
            ctx.helio.lp_reward_denom as nat,
            ctx.reserve_a.amount as nat,
            ctx.reserve_b.amount as nat,
        );
    }
}

} // verus!
