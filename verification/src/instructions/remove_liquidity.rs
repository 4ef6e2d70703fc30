//! Withdrawal from a pool: pool shares are handed in, both assets come back.

use crate::cpi::{Burn, CpiContext, SignerSeeds, TokenInstruction, Transfer};
use crate::errors::ErrorCode;
use crate::math::{lemma_floor_bounds, mul_div, spec_mul_div};
use crate::state::{Helio, Mint, PoolState, TokenAccount};
use anchor_lang::prelude::Pubkey;
use vstd::prelude::*;

verus! {

/// The accounts of a withdrawal.
#[derive(Clone, Copy, Debug, PartialEq, Eq)]
pub struct RemoveLiquidity {
    /// Who withdraws.
    pub provider: Pubkey,
    /// The account presented as the market's authority. What signs for the
    /// reserves is the authority that the market itself names.
    pub exchange_authority: Pubkey,
    /// The market.
    pub helio: Helio,
    /// The pool's reserve of asset A.
    pub reserve_a: TokenAccount,
    /// The pool's reserve of asset B.
    pub reserve_b: TokenAccount,
    /// The account that collects the protocol's tip, in pool shares.
    pub fee_reserve: TokenAccount,
    /// The pool-share asset.
    pub pool_mint: Mint,
    /// The provider's account of asset A.
    pub provider_reserve_a: TokenAccount,
    /// The provider's account of asset B.
    pub provider_reserve_b: TokenAccount,
    /// The provider's account of pool shares.
    pub provider_pool_reserve: TokenAccount,
    /// The pool.
    pub pool_state: PoolState,
    /// The token program.
    pub token_program: Pubkey,
}

/// What a withdrawal comes to.
#[derive(Clone, Copy, Debug, PartialEq, Eq, Structural)]
pub struct Withdrawal {
    /// Pool shares that go to the protocol's fee reserve. They stay
    /// outstanding.
    pub tip: u64,
    /// Pool shares burned.
    pub net_burn: u64,
    /// Units of asset A returned to the provider.
    pub return_a: u64,
    /// Units of asset B returned to the provider.
    pub return_b: u64,
}

/// A withdrawal, and the instructions that carry it out.
#[derive(Clone, Debug, PartialEq, Eq)]
pub struct WithdrawalReceipt {
    /// The amounts.
    pub withdrawal: Withdrawal,
    /// First the burn, then the tip, then the return of asset A, then that
    /// of asset B.
    pub instructions: Vec<TokenInstruction>,
}

/// What handing in `liq_amt_burn` pool shares comes to, or why it is
/// refused. The checks are made in this order.
///
/// The provider must hold the shares. Of them
/// `floor(liq_amt_burn * protocol_tip_num / protocol_tip_denom)` are the
/// tip; the rest is burned and redeemed for its part of each reserve,
/// `floor(net_burn * reserve / pool_amt_minted)`.
pub open spec fn spec_calculate_withdrawal(
    liq_amt_burn: u64,
    provider_amt_liq: u64,
    reserve_amt_a: u64,
    reserve_amt_b: u64,
    pool_amt_minted: u64,
    protocol_tip_num: u64,
    protocol_tip_denom: u64,
) -> Result<Withdrawal, ErrorCode> {
    if liq_amt_burn > provider_amt_liq {
        Err(ErrorCode::InsufficientLiquidityTokens)
    } else {
        match spec_mul_div(liq_amt_burn, protocol_tip_num, protocol_tip_denom) {
            None => Err(ErrorCode::ArithmeticFailure),
            Some(tip) => if tip > liq_amt_burn {
                Err(ErrorCode::ArithmeticFailure)
            } else {
                let net_burn = (liq_amt_burn - tip) as u64;
                match (
                    spec_mul_div(net_burn, reserve_amt_a, pool_amt_minted),
                    spec_mul_div(net_burn, reserve_amt_b, pool_amt_minted),
                ) {
                    (Some(return_a), Some(return_b)) => Ok(
                        Withdrawal { tip, net_burn, return_a, return_b },
                    ),
                    _ => Err(ErrorCode::ArithmeticFailure),
                }
            },
        }
    }
}

/// What a withdrawal comes to where the pool has to pay it: beyond the
/// withdrawal's own checks, no more shares can be burned than are
/// outstanding.
pub open spec fn spec_withdraw_from(
    liq_amt_burn: u64,
    provider_amt_liq: u64,
    reserve_amt_a: u64,
    reserve_amt_b: u64,
    pool_amt_minted: u64,
    protocol_tip_num: u64,
    protocol_tip_denom: u64,
) -> Result<Withdrawal, ErrorCode> {
    match spec_calculate_withdrawal(
        liq_amt_burn,
        provider_amt_liq,
        reserve_amt_a,
        reserve_amt_b,
        pool_amt_minted,
        protocol_tip_num,
        protocol_tip_denom,
    ) {
        Err(e) => Err(e),
        Ok(w) => if w.net_burn > pool_amt_minted {
            Err(ErrorCode::ArithmeticFailure)
        } else {
            Ok(w)
        },
    }
}

/// Works out what a provider who holds `provider_amt_liq` pool shares gets
/// for `liq_amt_burn` of them, from reserves of `reserve_amt_a` and
/// `reserve_amt_b` with `pool_amt_minted` shares outstanding.
pub fn calculate_withdrawal(
    liq_amt_burn: u64,
    provider_amt_liq: u64,
    reserve_amt_a: u64,
    reserve_amt_b: u64,
    pool_amt_minted: u64,
    protocol_tip_num: u64,
    protocol_tip_denom: u64,
) -> (r: Result<Withdrawal, ErrorCode>)
    ensures
        r == spec_calculate_withdrawal(
            liq_amt_burn,
            provider_amt_liq,
            reserve_amt_a,
            reserve_amt_b,
            pool_amt_minted,
            protocol_tip_num,
            protocol_tip_denom,
        ),
{
    if !(liq_amt_burn <= provider_amt_liq) {
        return Err(ErrorCode::InsufficientLiquidityTokens);
    }
    let protocol_liq_tip: u64 = match mul_div(liq_amt_burn, protocol_tip_num, protocol_tip_denom) {
        Some(t) => t,
        None => { return Err(ErrorCode::ArithmeticFailure); },
    };
    let adj_liq_burn: u64 = match liq_amt_burn.checked_sub(protocol_liq_tip) {
        Some(n) => n,
        None => { return Err(ErrorCode::ArithmeticFailure); },
    };
    let ret_amt_a: u64 = match mul_div(adj_liq_burn, reserve_amt_a, pool_amt_minted) {
        Some(a) => a,
        None => { return Err(ErrorCode::ArithmeticFailure); },
    };
    let ret_amt_b: u64 = match mul_div(adj_liq_burn, reserve_amt_b, pool_amt_minted) {
        Some(b) => b,
        None => { return Err(ErrorCode::ArithmeticFailure); },
    };
    Ok(
        Withdrawal {
            tip: protocol_liq_tip,
            net_burn: adj_liq_burn,
            return_a: ret_amt_a,
            return_b: ret_amt_b,
        },
    )
}

/// A part of the shares is redeemed for no more than that part of a reserve:
/// with `net_burn <= shares`, `floor(net_burn * reserve / shares) <= reserve`.
pub proof fn lemma_return_at_most_reserve(net_burn: nat, reserve: nat, shares: nat)
    requires
        0 < shares,
        net_burn <= shares,
    ensures
        net_burn * reserve / shares <= reserve,
{
    assert(net_burn * reserve / shares <= reserve) by (nonlinear_arith)
        requires
            0 < shares,
            net_burn <= shares,
    ;
}

/// A withdrawal loses nothing between tip and burn, and returns of each
/// reserve the burned part of the supply, rounded down: each return is the
/// greatest amount whose product with the supply does not exceed the product
/// of the burned shares with the reserve.
pub proof fn lemma_withdrawal_conserves(
    liq_amt_burn: u64,
    provider_amt_liq: u64,
    reserve_amt_a: u64,
    reserve_amt_b: u64,
    pool_amt_minted: u64,
    protocol_tip_num: u64,
    protocol_tip_denom: u64,
)
    requires
        spec_calculate_withdrawal(
            liq_amt_burn,
            provider_amt_liq,
            reserve_amt_a,
            reserve_amt_b,
            pool_amt_minted,
            protocol_tip_num,
            protocol_tip_denom,
        ) is Ok,
    ensures
        ({
            let w = spec_calculate_withdrawal(
                liq_amt_burn,
                provider_amt_liq,
                reserve_amt_a,
                reserve_amt_b,
                pool_amt_minted,
                protocol_tip_num,
                protocol_tip_denom,
            )->Ok_0;
            &&& w.tip + w.net_burn == liq_amt_burn
            &&& w.return_a * pool_amt_minted <= w.net_burn * reserve_amt_a < (w.return_a + 1)
                * pool_amt_minted
            &&& w.return_b * pool_amt_minted <= w.net_burn * reserve_amt_b < (w.return_b + 1)
                * pool_amt_minted
        }),
{
    let w = spec_calculate_withdrawal(
        liq_amt_burn,
        provider_amt_liq,
        reserve_amt_a,
        reserve_amt_b,
        pool_amt_minted,
        protocol_tip_num,
        protocol_tip_denom,
    )->Ok_0;
    lemma_floor_bounds((w.net_burn * reserve_amt_a) as nat, pool_amt_minted as nat);
    lemma_floor_bounds((w.net_burn * reserve_amt_b) as nat, pool_amt_minted as nat);
}

/// Where the tip is a fraction of at most one, it never exceeds the shares
/// handed in.
pub proof fn lemma_tip_at_most_burn(liq_amt_burn: u64, protocol_tip_num: u64, protocol_tip_denom: u64)
    requires
        0 < protocol_tip_denom,
        protocol_tip_num <= protocol_tip_denom,
    ensures
        liq_amt_burn * protocol_tip_num / (protocol_tip_denom as int) <= liq_amt_burn,
{
    assert(liq_amt_burn * protocol_tip_num / (protocol_tip_denom as int) <= liq_amt_burn)
        by (nonlinear_arith)
        requires
            0 < protocol_tip_denom,
            protocol_tip_num <= protocol_tip_denom,
    ;
}

/// All of the shares are redeemed for all of a reserve, and fewer for less
/// than all of a reserve that holds something.
pub proof fn lemma_return_of_part(net_burn: nat, reserve: nat, shares: nat)
    requires
        0 < shares,
        net_burn <= shares,
    ensures
        net_burn == shares ==> net_burn * reserve / shares == reserve,
        net_burn < shares && reserve > 0 ==> net_burn * reserve / shares < reserve,
{
    if net_burn == shares {
        assert(shares * reserve / shares == reserve) by (nonlinear_arith)
            requires
                0 < shares,
        ;
    } else if reserve > 0 {
        assert(net_burn * reserve / shares < reserve) by (nonlinear_arith)
            requires
                0 < shares,
                net_burn < shares,
                reserve > 0,
        ;
    }
}

impl RemoveLiquidity {
    /// The seeds of the market's authority.
    pub open spec fn spec_signer_seeds(self) -> SignerSeeds {
        SignerSeeds { owner: self.helio.owner, bump: self.helio.exchange_auth_bump }
    }

    /// The return of asset A, authorized by the authority that the market
    /// names.
    pub open spec fn spec_transfer_to_provider_a_ctx(self) -> CpiContext<Transfer> {
        CpiContext {
            program: self.token_program,
            accounts: Transfer {
                from: self.reserve_a.key,
                to: self.provider_reserve_a.key,
                authority: self.helio.exchange_authority,
            },
            signer_seeds: None,
        }
    }

    /// The return of asset B, authorized by the authority that the market
    /// names.
    pub open spec fn spec_transfer_to_provider_b_ctx(self) -> CpiContext<Transfer> {
        CpiContext {
            program: self.token_program,
            accounts: Transfer {
                from: self.reserve_b.key,
                to: self.provider_reserve_b.key,
                authority: self.helio.exchange_authority,
            },
            signer_seeds: None,
        }
    }

    /// The tip, in pool shares, from the provider to the fee reserve,
    /// authorized by the provider.
    pub open spec fn spec_transfer_tip_protocol(self) -> CpiContext<Transfer> {
        CpiContext {
            program: self.token_program,
            accounts: Transfer {
                from: self.provider_pool_reserve.key,
                to: self.fee_reserve.key,
                authority: self.provider,
            },
            signer_seeds: None,
        }
    }

    /// The burn of the provider's pool shares, authorized by the provider.
    pub open spec fn spec_pool_liq_burn_ctx(self) -> CpiContext<Burn> {
        CpiContext {
            program: self.token_program,
            accounts: Burn {
                mint: self.pool_mint.key,
                from: self.provider_pool_reserve.key,
                authority: self.provider,
            },
            signer_seeds: None,
        }
    }

    /// What handing in `liq_amt_burn` shares through these accounts comes
    /// to.
    pub open spec fn quote(self, liq_amt_burn: u64) -> Result<Withdrawal, ErrorCode> {
        spec_withdraw_from(
            liq_amt_burn,
            self.provider_pool_reserve.amount,
            self.reserve_a.amount,
            self.reserve_b.amount,
            self.pool_mint.supply,
            self.pool_state.protocol_tip_num,
            self.pool_state.protocol_tip_denom,
        )
    }

    /// The instructions of the withdrawal `w`.
    pub open spec fn spec_instructions(self, w: Withdrawal) -> Seq<TokenInstruction> {
        seq![
            TokenInstruction::Burn(
                CpiContext {
                    signer_seeds: Some(self.spec_signer_seeds()),
                    ..self.spec_pool_liq_burn_ctx()
                },
                w.net_burn,
            ),
            TokenInstruction::Transfer(
                CpiContext {
                    signer_seeds: Some(self.spec_signer_seeds()),
                    ..self.spec_transfer_tip_protocol()
                },
                w.tip,
            ),
            TokenInstruction::Transfer(
                CpiContext {
                    signer_seeds: Some(self.spec_signer_seeds()),
                    ..self.spec_transfer_to_provider_a_ctx()
                },
                w.return_a,
            ),
            TokenInstruction::Transfer(
                CpiContext {
                    signer_seeds: Some(self.spec_signer_seeds()),
                    ..self.spec_transfer_to_provider_b_ctx()
                },
                w.return_b,
            ),
        ]
    }

    /// The accounts once the withdrawal `w` has left the reserves and its
    /// shares have been burned. The tip is not burned, so the supply falls
    /// by `net_burn` only; the pool's count of shares follows the supply.
    /// The provider's own accounts and the fee reserve stay as they were
    /// read.
    pub open spec fn after(self, w: Withdrawal) -> RemoveLiquidity {
        RemoveLiquidity {
            reserve_a: TokenAccount {
                amount: (self.reserve_a.amount - w.return_a) as u64,
                ..self.reserve_a
            },
            reserve_b: TokenAccount {
                amount: (self.reserve_b.amount - w.return_b) as u64,
                ..self.reserve_b
            },
            pool_mint: Mint {
                supply: (self.pool_mint.supply - w.net_burn) as u64,
                ..self.pool_mint
            },
            pool_state: PoolState {
                amount_minted: (self.pool_mint.supply - w.net_burn) as u64,
                ..self.pool_state
            },
            ..self
        }
    }

    /// The accounts belong together: the provider owns the provider's three
    /// token accounts, the authority is the market's, and reserves, fee
    /// reserve and share asset are the pool's.
    pub open spec fn wired(self) -> bool {
        &&& self.provider_reserve_a.owner == self.provider
        &&& self.provider_reserve_b.owner == self.provider
        &&& self.provider_pool_reserve.owner == self.provider
        &&& self.helio.exchange_authority == self.exchange_authority
        &&& self.pool_state.reserve_a == self.reserve_a.key
        &&& self.pool_state.reserve_b == self.reserve_b.key
        &&& self.pool_state.fee_reserve == self.fee_reserve.key
        &&& self.pool_state.pool_mint == self.pool_mint.key
    }

    /// The call that returns asset A to the provider.
    pub fn transfer_to_provider_a_ctx(&self) -> (ctx: CpiContext<Transfer>)
        ensures
            ctx == self.spec_transfer_to_provider_a_ctx(),
    {
        CpiContext {
            program: self.token_program,
            accounts: Transfer {
                from: self.reserve_a.key,
                to: self.provider_reserve_a.key,
                authority: self.helio.exchange_authority,
            },
            signer_seeds: None,
        }
    }

    /// The call that returns asset B to the provider.
    pub fn transfer_to_provider_b_ctx(&self) -> (ctx: CpiContext<Transfer>)
        ensures
            ctx == self.spec_transfer_to_provider_b_ctx(),
    {
        CpiContext {
            program: self.token_program,
            accounts: Transfer {
                from: self.reserve_b.key,
                to: self.provider_reserve_b.key,
                authority: self.helio.exchange_authority,
            },
            signer_seeds: None,
        }
    }

    /// The call that moves the tip to the fee reserve.
    pub fn transfer_tip_protocol(&self) -> (ctx: CpiContext<Transfer>)
        ensures
            ctx == self.spec_transfer_tip_protocol(),
    {
        CpiContext {
            program: self.token_program,
            accounts: Transfer {
                from: self.provider_pool_reserve.key,
                to: self.fee_reserve.key,
                authority: self.provider,
            },
            signer_seeds: None,
        }
    }

    /// The call that burns the provider's pool shares.
    pub fn pool_liq_burn_ctx(&self) -> (ctx: CpiContext<Burn>)
        ensures
            ctx == self.spec_pool_liq_burn_ctx(),
    {
        CpiContext {
            program: self.token_program,
            accounts: Burn {
                mint: self.pool_mint.key,
                from: self.provider_pool_reserve.key,
                authority: self.provider,
            },
            signer_seeds: None,
        }
    }
}

/// A withdrawal asks for nothing that its authorizer may not give. Whatever
/// the accounts, the returns from the reserves are authorized by the
/// authority that the market names and by no other. Where the accounts
/// belong together, the owner of the provider's share account authorizes the
/// burn and the tip, the tip goes to the pool's fee reserve, and the returns
/// leave the pool's reserves.
pub proof fn lemma_withdrawal_instructions_authorized(ctx: RemoveLiquidity, w: Withdrawal)
    ensures
        ctx.spec_instructions(w).len() == 4,
        ctx.spec_instructions(w)[0].authority() == ctx.provider,
        ctx.spec_instructions(w)[1].authority() == ctx.provider,
        ctx.spec_instructions(w)[2].authority() == ctx.helio.exchange_authority,
        ctx.spec_instructions(w)[3].authority() == ctx.helio.exchange_authority,
        ctx.wired() ==> ({
            let instructions = ctx.spec_instructions(w);
            &&& instructions.len() == 4
            &&& instructions[0] is Burn
            &&& instructions[0].source() == ctx.provider_pool_reserve.key
            &&& instructions[0].destination() == ctx.pool_state.pool_mint
            &&& instructions[0].authority() == ctx.provider_pool_reserve.owner
            &&& instructions[0].amount() == w.net_burn
            &&& instructions[1].source() == ctx.provider_pool_reserve.key
            &&& instructions[1].destination() == ctx.pool_state.fee_reserve
            &&& instructions[1].authority() == ctx.provider_pool_reserve.owner
            &&& instructions[1].amount() == w.tip
            &&& instructions[2].source() == ctx.pool_state.reserve_a
            &&& instructions[2].destination() == ctx.provider_reserve_a.key
            &&& instructions[2].authority() == ctx.helio.exchange_authority
            &&& instructions[2].amount() == w.return_a
            &&& instructions[3].source() == ctx.pool_state.reserve_b
            &&& instructions[3].destination() == ctx.provider_reserve_b.key
            &&& instructions[3].authority() == ctx.helio.exchange_authority
            &&& instructions[3].amount() == w.return_b
        }),
{
}

/// Hands in `liq_amt_burn` pool shares.
///
/// On success the reserves in `ctx` have shrunk by what is returned and the
/// share supply by what is burned, and the receipt holds the amounts and the
/// instructions. On an error the accounts are as before.
pub fn handler(ctx: &mut RemoveLiquidity, liq_amt_burn: u64) -> (r: Result<
    WithdrawalReceipt,
    ErrorCode,
>)
    ensures
        match r {
            Ok(receipt) => {
                &&& old(ctx).quote(liq_amt_burn) == Ok::<Withdrawal, ErrorCode>(receipt.withdrawal)
                &&& receipt.instructions@ == old(ctx).spec_instructions(receipt.withdrawal)
                &&& *final(ctx) == old(ctx).after(receipt.withdrawal)
                &&& receipt.withdrawal.return_a <= old(ctx).reserve_a.amount
                &&& receipt.withdrawal.return_b <= old(ctx).reserve_b.amount
            },
            Err(e) => {
                &&& old(ctx).quote(liq_amt_burn) == Err::<Withdrawal, ErrorCode>(e)
                &&& *final(ctx) == *old(ctx)
            },
        },
{
    let reserve_amt_a: u64 = ctx.reserve_a.amount;
    let reserve_amt_b: u64 = ctx.reserve_b.amount;
    let provider_amt_liq: u64 = ctx.provider_pool_reserve.amount;
    let pool_amt_minted: u64 = ctx.pool_mint.supply;
    let protocol_tip_num: u64 = ctx.pool_state.protocol_tip_num;
    let protocol_tip_denom: u64 = ctx.pool_state.protocol_tip_denom;

    let withdrawal = match calculate_withdrawal(
        liq_amt_burn,
        provider_amt_liq,
        reserve_amt_a,
        reserve_amt_b,
        pool_amt_minted,
        protocol_tip_num,
        protocol_tip_denom,
    ) {
        Ok(w) => w,
        Err(e) => { return Err(e); },
    };
    let new_supply: u64 = match pool_amt_minted.checked_sub(withdrawal.net_burn) {
        Some(rest) => rest,
        None => { return Err(ErrorCode::ArithmeticFailure); },
    };
    proof {
        lemma_return_at_most_reserve(
            withdrawal.net_burn as nat,
            reserve_amt_a as nat,
            pool_amt_minted as nat,
        );
        lemma_return_at_most_reserve(
            withdrawal.net_burn as nat,
            reserve_amt_b as nat,
            pool_amt_minted as nat,
        );
    }

    let seeds = SignerSeeds { owner: ctx.helio.owner, bump: ctx.helio.exchange_auth_bump };
    let mut instructions: Vec<TokenInstruction> = Vec::new();
    instructions.push(
        TokenInstruction::Burn(ctx.pool_liq_burn_ctx().with_signer(seeds), withdrawal.net_burn),
    );
    instructions.push(
        TokenInstruction::Transfer(ctx.transfer_tip_protocol().with_signer(seeds), withdrawal.tip),
    );
    instructions.push(
        TokenInstruction::Transfer(
            ctx.transfer_to_provider_a_ctx().with_signer(seeds),
            withdrawal.return_a,
        ),
    );
    instructions.push(
        TokenInstruction::Transfer(
            ctx.transfer_to_provider_b_ctx().with_signer(seeds),
            withdrawal.return_b,
        ),
    );
    assert(instructions@ =~= old(ctx).spec_instructions(withdrawal));

    ctx.reserve_a.amount = reserve_amt_a - withdrawal.return_a;
    ctx.reserve_b.amount = reserve_amt_b - withdrawal.return_b;
    ctx.pool_mint.supply = new_supply;
    ctx.pool_state.amount_minted = new_supply;
    Ok(WithdrawalReceipt { withdrawal, instructions })
}

} // verus!
