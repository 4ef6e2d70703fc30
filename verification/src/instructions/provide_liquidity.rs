//! Deposit of both assets into a pool, against newly minted pool shares.

use crate::cpi::{CpiContext, MintTo, SignerSeeds, TokenInstruction, Transfer};
use crate::errors::ErrorCode;
use crate::math::{
    floor_sqrt, is_floor_sqrt, lemma_floor_sqrt_exists, mul_div, spec_mul_div, sqrt_floor,
};
use crate::state::{Helio, Mint, PoolState, TokenAccount};
use anchor_lang::prelude::Pubkey;
use vstd::prelude::*;

verus! {

/// The accounts of a deposit.
#[derive(Clone, Copy, Debug, PartialEq, Eq)]
pub struct ProvideLiquidity {
    /// Who deposits.
    pub provider: Pubkey,
    /// The account presented as the market's authority. What signs for the
    /// mint of pool shares is the authority that the market itself names.
    pub exchange_authority: Pubkey,
    /// The market.
    pub helio: Helio,
    /// The pool's reserve of asset A.
    pub reserve_a: TokenAccount,
    /// The pool's reserve of asset B.
    pub reserve_b: TokenAccount,
    /// The pool-share asset.
    pub pool_mint: Mint,
    /// The provider's account of asset A.
    pub provider_reserve_a: TokenAccount,
    /// The provider's account of asset B.
    pub provider_reserve_b: TokenAccount,
    /// The provider's account of pool shares.
    pub provider_pool_reserve: TokenAccount,
    /// The pool.
    pub pool_state: PoolState,
    /// The token program.
    pub token_program: Pubkey,
}

/// What a deposit comes to.
#[derive(Clone, Copy, Debug, PartialEq, Eq, Structural)]
pub struct Deposit {
    /// Pool shares minted to the provider.
    pub minted: u64,
    /// Units of asset A taken from the provider.
    pub deposit_a: u64,
    /// Units of asset B taken from the provider.
    pub deposit_b: u64,
}

/// A deposit, and the instructions that carry it out.
#[derive(Clone, Debug, PartialEq, Eq)]
pub struct DepositReceipt {
    /// The amounts.
    pub deposit: Deposit,
    /// First the mint of the shares, then the transfer of asset A, then that
    /// of asset B.
    pub instructions: Vec<TokenInstruction>,
}

/// What a deposit of `amount_a` and `amount_b` comes to, or why it is
/// refused. The checks are made in this order.
///
/// Both amounts must be strictly below what the provider holds. Into a pool
/// with two empty reserves both amounts go whole, and the shares minted are
/// the integer square root of their product. Otherwise `amount_a` goes whole,
/// the shares are `floor(amount_a * supply / reserve_a)`, and asset B is
/// taken in the ratio of the reserves, `floor(reserve_b * amount_a /
/// reserve_a)`, which `amount_b` must cover. Asset A is never taken in part:
/// nothing but the provider's balance bounds what goes in of it.
pub open spec fn spec_calculate_deposit(
    amount_a: u64,
    amount_b: u64,
    provider_amt_a: u64,
    provider_amt_b: u64,
    reserve_amt_a: u64,
    reserve_amt_b: u64,
    pool_liq_amt: u64,
) -> Result<Deposit, ErrorCode> {
    if amount_a >= provider_amt_a || amount_b >= provider_amt_b {
        Err(ErrorCode::InsufficientLiquidityProvided)
    } else if reserve_amt_a == 0 && reserve_amt_b == 0 {
        if amount_a * amount_b > u64::MAX {
            Err(ErrorCode::ArithmeticFailure)
        } else {
            Ok(
                Deposit {
                    minted: floor_sqrt((amount_a * amount_b) as nat) as u64,
                    deposit_a: amount_a,
                    deposit_b: amount_b,
                },
            )
        }
    } else {
        match (
            spec_mul_div(amount_a, pool_liq_amt, reserve_amt_a),
            spec_mul_div(reserve_amt_b, amount_a, reserve_amt_a),
        ) {
            (Some(minted), Some(deposit_b)) => if deposit_b > amount_b {
                Err(ErrorCode::InsufficientLiquidityProvided)
            } else {
                Ok(Deposit { minted, deposit_a: amount_a, deposit_b })
            },
            _ => Err(ErrorCode::ArithmeticFailure),
        }
    }
}

/// What a deposit comes to where the pool has to take it in: beyond the
/// deposit's own checks, neither reserve nor the share supply may grow past
/// 64 bits.
pub open spec fn spec_deposit_into(
    amount_a: u64,
    amount_b: u64,
    provider_amt_a: u64,
    provider_amt_b: u64,
    reserve_amt_a: u64,
    reserve_amt_b: u64,
    pool_liq_amt: u64,
) -> Result<Deposit, ErrorCode> {
    match spec_calculate_deposit(
        amount_a,
        amount_b,
        provider_amt_a,
        provider_amt_b,
        reserve_amt_a,
        reserve_amt_b,
        pool_liq_amt,
    ) {
        Err(e) => Err(e),
        Ok(d) => if reserve_amt_a + d.deposit_a > u64::MAX || reserve_amt_b + d.deposit_b
            > u64::MAX || pool_liq_amt + d.minted > u64::MAX {
            Err(ErrorCode::ArithmeticFailure)
        } else {
            Ok(d)
        },
    }
}

/// Works out a deposit of `amount_a` and `amount_b` by a provider who holds
/// `provider_amt_a` and `provider_amt_b`, into reserves of `reserve_amt_a`
/// and `reserve_amt_b` with `pool_liq_amt` shares outstanding.
pub fn calculate_deposit(
    amount_a: u64,
    amount_b: u64,
    provider_amt_a: u64,
    provider_amt_b: u64,
    reserve_amt_a: u64,
    reserve_amt_b: u64,
    pool_liq_amt: u64,
) -> (r: Result<Deposit, ErrorCode>)
    ensures
        r == spec_calculate_deposit(
            amount_a,
            amount_b,
            provider_amt_a,
            provider_amt_b,
            reserve_amt_a,
            reserve_amt_b,
            pool_liq_amt,
        ),
{
    if !(amount_a < provider_amt_a) {
        return Err(ErrorCode::InsufficientLiquidityProvided);
    }
    if !(amount_b < provider_amt_b) {
        return Err(ErrorCode::InsufficientLiquidityProvided);
    }
    let optimum_dep_a: u64 = amount_a;
    if reserve_amt_a == 0 && reserve_amt_b == 0 {
        let liq_product: u64 = match amount_a.checked_mul(amount_b) {
            Some(p) => p,
            None => { return Err(ErrorCode::ArithmeticFailure); },
        };
        let liq_amt_mint: u64 = sqrt_floor(liq_product);
        Ok(Deposit { minted: liq_amt_mint, deposit_a: optimum_dep_a, deposit_b: amount_b })
    } else {
        let liq_amt_mint: u64 = match mul_div(optimum_dep_a, pool_liq_amt, reserve_amt_a) {
            Some(m) => m,
            None => { return Err(ErrorCode::ArithmeticFailure); },
        };
        let optimum_dep_b: u64 = match mul_div(reserve_amt_b, amount_a, reserve_amt_a) {
            Some(b) => b,
            None => { return Err(ErrorCode::ArithmeticFailure); },
        };
        if !(optimum_dep_b <= amount_b) {
            return Err(ErrorCode::InsufficientLiquidityProvided);
        }
        Ok(Deposit { minted: liq_amt_mint, deposit_a: optimum_dep_a, deposit_b: optimum_dep_b })
    }
}

impl ProvideLiquidity {
    /// The seeds of the market's authority.
    pub open spec fn spec_signer_seeds(self) -> SignerSeeds {
        SignerSeeds { owner: self.helio.owner, bump: self.helio.exchange_auth_bump }
    }

    /// The provider's payment of asset A, authorized by the provider.
    pub open spec fn spec_transfer_to_reserve_a_ctx(self) -> CpiContext<Transfer> {
        CpiContext {
            program: self.token_program,
            accounts: Transfer {
                from: self.provider_reserve_a.key,
                to: self.reserve_a.key,
                authority: self.provider,
            },
            signer_seeds: None,
        }
    }

    /// The provider's payment of asset B, authorized by the provider.
    pub open spec fn spec_transfer_to_reserve_b_ctx(self) -> CpiContext<Transfer> {
        CpiContext {
            program: self.token_program,
            accounts: Transfer {
                from: self.provider_reserve_b.key,
                to: self.reserve_b.key,
                authority: self.provider,
            },
            signer_seeds: None,
        }
    }

    /// The mint of pool shares to the provider, authorized by the authority
    /// that the market names.
    pub open spec fn spec_pool_liq_mint_ctx(self) -> CpiContext<MintTo> {
        CpiContext {
            program: self.token_program,
            accounts: MintTo {
                mint: self.pool_mint.key,
                to: self.provider_pool_reserve.key,
                authority: self.helio.exchange_authority,
            },
            signer_seeds: None,
        }
    }

    /// What a deposit of `amount_a` and `amount_b` through these accounts
    /// comes to.
    pub open spec fn quote(self, amount_a: u64, amount_b: u64) -> Result<Deposit, ErrorCode> {
        spec_deposit_into(
            amount_a,
            amount_b,
            self.provider_reserve_a.amount,
            self.provider_reserve_b.amount,
            self.reserve_a.amount,
            self.reserve_b.amount,
            self.pool_mint.supply,
        )
    }

    /// The instructions of the deposit `d`.
    pub open spec fn spec_instructions(self, d: Deposit) -> Seq<TokenInstruction> {
        seq![
            TokenInstruction::MintTo(
                CpiContext {
                    signer_seeds: Some(self.spec_signer_seeds()),
                    ..self.spec_pool_liq_mint_ctx()
                },
                d.minted,
            ),
            TokenInstruction::Transfer(
                CpiContext {
                    signer_seeds: Some(self.spec_signer_seeds()),
                    ..self.spec_transfer_to_reserve_a_ctx()
                },
                d.deposit_a,
            ),
            TokenInstruction::Transfer(
                CpiContext {
                    signer_seeds: Some(self.spec_signer_seeds()),
                    ..self.spec_transfer_to_reserve_b_ctx()
                },
                d.deposit_b,
            ),
        ]
    }

    /// The accounts once the deposit `d` has gone into the reserves and its
    /// shares have been minted. The pool's count of shares follows the
    /// supply. The provider's own accounts stay as they were read.
    pub open spec fn after(self, d: Deposit) -> ProvideLiquidity {
        ProvideLiquidity {
            reserve_a: TokenAccount {
                amount: (self.reserve_a.amount + d.deposit_a) as u64,
                ..self.reserve_a
            },
            reserve_b: TokenAccount {
                amount: (self.reserve_b.amount + d.deposit_b) as u64,
                ..self.reserve_b
            },
            pool_mint: Mint { supply: (self.pool_mint.supply + d.minted) as u64, ..self.pool_mint },
            pool_state: PoolState {
                amount_minted: (self.pool_mint.supply + d.minted) as u64,
                ..self.pool_state
            },
            ..self
        }
    }

    /// The accounts belong together: the provider owns the provider's three
    /// token accounts, the authority is the market's, and reserves and share
    /// asset are the pool's.
    pub open spec fn wired(self) -> bool {
        &&& self.provider_reserve_a.owner == self.provider
        &&& self.provider_reserve_b.owner == self.provider
        &&& self.provider_pool_reserve.owner == self.provider
        &&& self.helio.exchange_authority == self.exchange_authority
        &&& self.pool_state.reserve_a == self.reserve_a.key
        &&& self.pool_state.reserve_b == self.reserve_b.key
        &&& self.pool_state.pool_mint == self.pool_mint.key
    }

    /// The call that moves the provider's asset A into reserve A.
    pub fn transfer_to_reserve_a_ctx(&self) -> (ctx: CpiContext<Transfer>)
        ensures
            ctx == self.spec_transfer_to_reserve_a_ctx(),
    {
        CpiContext {
            program: self.token_program,
            accounts: Transfer {
                from: self.provider_reserve_a.key,
                to: self.reserve_a.key,
                authority: self.provider,
            },
            signer_seeds: None,
        }
    }

    /// The call that moves the provider's asset B into reserve B.
    pub fn transfer_to_reserve_b_ctx(&self) -> (ctx: CpiContext<Transfer>)
        ensures
            ctx == self.spec_transfer_to_reserve_b_ctx(),
    {
        CpiContext {
            program: self.token_program,
            accounts: Transfer {
                from: self.provider_reserve_b.key,
                to: self.reserve_b.key,
                authority: self.provider,
            },
            signer_seeds: None,
        }
    }

    /// The call that mints pool shares to the provider.
    pub fn pool_liq_mint_ctx(&self) -> (ctx: CpiContext<MintTo>)
        ensures
            ctx == self.spec_pool_liq_mint_ctx(),
    {
        CpiContext {
            program: self.token_program,
            accounts: MintTo {
                mint: self.pool_mint.key,
                to: self.provider_pool_reserve.key,
                authority: self.helio.exchange_authority,
            },
            signer_seeds: None,
        }
    }
}

/// Deposits `amount_a` of asset A and up to `amount_b` of asset B.
///
/// On success the reserves and the share supply in `ctx` have grown by the
/// deposit, and the receipt holds the amounts and the instructions. On an
/// error the accounts are as before.
pub fn handler(ctx: &mut ProvideLiquidity, amount_a: u64, amount_b: u64) -> (r: Result<
    DepositReceipt,
    ErrorCode,
>)
    ensures
        match r {
            Ok(receipt) => {
                &&& old(ctx).quote(amount_a, amount_b) == Ok::<Deposit, ErrorCode>(receipt.deposit)
                &&& receipt.instructions@ == old(ctx).spec_instructions(receipt.deposit)
                &&& *final(ctx) == old(ctx).after(receipt.deposit)
            },
            Err(e) => {
                &&& old(ctx).quote(amount_a, amount_b) == Err::<Deposit, ErrorCode>(e)
                &&& *final(ctx) == *old(ctx)
            },
        },
{
    let provider_amt_a: u64 = ctx.provider_reserve_a.amount;
    let provider_amt_b: u64 = ctx.provider_reserve_b.amount;
    let reserve_amt_a: u64 = ctx.reserve_a.amount;
    let reserve_amt_b: u64 = ctx.reserve_b.amount;
    let pool_liq_amt: u64 = ctx.pool_mint.supply;

    let deposit = match calculate_deposit(
        amount_a,
        amount_b,
        provider_amt_a,
        provider_amt_b,
        reserve_amt_a,
        reserve_amt_b,
        pool_liq_amt,
    ) {
        Ok(d) => d,
        Err(e) => { return Err(e); },
    };
    let new_reserve_a: u64 = match reserve_amt_a.checked_add(deposit.deposit_a) {
        Some(sum) => sum,
        None => { return Err(ErrorCode::ArithmeticFailure); },
    };
    let new_reserve_b: u64 = match reserve_amt_b.checked_add(deposit.deposit_b) {
        Some(sum) => sum,
        None => { return Err(ErrorCode::ArithmeticFailure); },
    };
    let new_supply: u64 = match pool_liq_amt.checked_add(deposit.minted) {
        Some(sum) => sum,
        None => { return Err(ErrorCode::ArithmeticFailure); },
    };

    let seeds = SignerSeeds { owner: ctx.helio.owner, bump: ctx.helio.exchange_auth_bump };
    let mut instructions: Vec<TokenInstruction> = Vec::new();
    instructions.push(
        TokenInstruction::MintTo(ctx.pool_liq_mint_ctx().with_signer(seeds), deposit.minted),
    );
    instructions.push(
        TokenInstruction::Transfer(
            ctx.transfer_to_reserve_a_ctx().with_signer(seeds),
            deposit.deposit_a,
        ),
    );
    instructions.push(
        TokenInstruction::Transfer(
            ctx.transfer_to_reserve_b_ctx().with_signer(seeds),
            deposit.deposit_b,
        ),
    );
    assert(instructions@ =~= old(ctx).spec_instructions(deposit));

    ctx.reserve_a.amount = new_reserve_a;
    ctx.reserve_b.amount = new_reserve_b;
    ctx.pool_mint.supply = new_supply;
    ctx.pool_state.amount_minted = new_supply;
    Ok(DepositReceipt { deposit, instructions })
}

/// A deposit asks for nothing that its authorizer may not give. Whatever
/// the accounts, the mint of shares is authorized by the authority that the
/// market names and by no other. Where the accounts belong together, the
/// shares minted are the pool's, and the owner of the provider's accounts
/// authorizes the payments, which go into the pool's reserves.
pub proof fn lemma_deposit_instructions_authorized(ctx: ProvideLiquidity, d: Deposit)
    ensures
        ctx.spec_instructions(d).len() == 3,
        ctx.spec_instructions(d)[0].authority() == ctx.helio.exchange_authority,
        ctx.spec_instructions(d)[1].authority() == ctx.provider,
        ctx.spec_instructions(d)[2].authority() == ctx.provider,
        ctx.wired() ==> ({
            let instructions = ctx.spec_instructions(d);
            &&& instructions.len() == 3
            &&& instructions[0] is MintTo
            &&& instructions[0].source() == ctx.pool_state.pool_mint
            &&& instructions[0].destination() == ctx.provider_pool_reserve.key
            &&& instructions[0].authority() == ctx.helio.exchange_authority
            &&& instructions[0].amount() == d.minted
            &&& instructions[1].source() == ctx.provider_reserve_a.key
            &&& instructions[1].destination() == ctx.pool_state.reserve_a
            &&& instructions[1].authority() == ctx.provider_reserve_a.owner
            &&& instructions[1].amount() == d.deposit_a
            &&& instructions[2].source() == ctx.provider_reserve_b.key
            &&& instructions[2].destination() == ctx.pool_state.reserve_b
            &&& instructions[2].authority() == ctx.provider_reserve_b.owner
            &&& instructions[2].amount() == d.deposit_b
        }),
{
}

/// The first deposit into a new pool sets its price. Where the provider
/// holds more than both amounts and their product fits 64 bits, the deposit
/// is accepted, both amounts go in whole and become the reserves, and the
/// shares minted are the integer square root of the product.
pub proof fn lemma_first_deposit(ctx: ProvideLiquidity, amount_a: u64, amount_b: u64)
    requires
        ctx.reserve_a.amount == 0,
        ctx.reserve_b.amount == 0,
        ctx.pool_mint.supply == 0,
        0 < amount_a < ctx.provider_reserve_a.amount,
        0 < amount_b < ctx.provider_reserve_b.amount,
        amount_a * amount_b <= u64::MAX,
    ensures
        ctx.quote(amount_a, amount_b) is Ok,
        ({
            let d = ctx.quote(amount_a, amount_b)->Ok_0;
            &&& d.minted == floor_sqrt((amount_a * amount_b) as nat)
            &&& is_floor_sqrt((amount_a * amount_b) as nat, d.minted as nat)
            &&& d.deposit_a == amount_a
            &&& d.deposit_b == amount_b
            &&& ctx.after(d).reserve_a.amount == amount_a
            &&& ctx.after(d).reserve_b.amount == amount_b
            &&& ctx.after(d).pool_mint.supply == d.minted
            &&& ctx.after(d).pool_state.amount_minted == d.minted
        }),
{
    lemma_floor_sqrt_exists((amount_a * amount_b) as nat);
}

} // verus!
