use anchor_lang::prelude::Pubkey;
use helio_dex::cpi::{CpiContext, MintTo, SignerSeeds, TokenInstruction, Transfer};
use helio_dex::errors::ErrorCode;
use helio_dex::instructions::provide_liquidity::{calculate_deposit, handler};
use helio_dex::instructions::{Deposit, ProvideLiquidity};
use helio_dex::state::{Helio, Mint, PoolState, TokenAccount};

fn provide_key(n: u8) -> Pubkey {
    Pubkey::new_from_array([n; 32])
}

fn provide_accounts(
    reserve_a: u64,
    reserve_b: u64,
    supply: u64,
    provider_a: u64,
    provider_b: u64,
) -> ProvideLiquidity {
    ProvideLiquidity {
        provider: provide_key(1),
        exchange_authority: provide_key(9),
        helio: Helio {
            exchange_authority: provide_key(9),
            owner: provide_key(10),
            lp_reward_num: 997,
            lp_reward_denom: 1000,
            exchange_auth_bump: 253,
        },
        reserve_a: TokenAccount { key: provide_key(2), owner: provide_key(9), amount: reserve_a },
        reserve_b: TokenAccount { key: provide_key(3), owner: provide_key(9), amount: reserve_b },
        pool_mint: Mint { key: provide_key(13), supply },
        provider_reserve_a: TokenAccount {
            key: provide_key(4),
            owner: provide_key(1),
            amount: provider_a,
        },
        provider_reserve_b: TokenAccount {
            key: provide_key(5),
            owner: provide_key(1),
            amount: provider_b,
        },
        provider_pool_reserve: TokenAccount { key: provide_key(6), owner: provide_key(1), amount: 0 },
        pool_state: PoolState {
            reserve_a: provide_key(2),
            reserve_b: provide_key(3),
            mint_a: provide_key(11),
            mint_b: provide_key(12),
            pool_mint: provide_key(13),
            fee_reserve: provide_key(14),
            protocol_tip_num: 1,
            protocol_tip_denom: 10,
            amount_minted: supply,
        },
        token_program: provide_key(20),
    }
}

#[test]
fn first_deposit_mints_the_root_of_the_product() {
    assert_eq!(
        calculate_deposit(4, 9, 100, 100, 0, 0, 0),
        Ok(Deposit { minted: 6, deposit_a: 4, deposit_b: 9 })
    );
    // floor(sqrt(6)) = 2
    assert_eq!(
        calculate_deposit(2, 3, 100, 100, 0, 0, 0),
        Ok(Deposit { minted: 2, deposit_a: 2, deposit_b: 3 })
    );
    assert_eq!(
        calculate_deposit(1_000_000, 4_000_000, u64::MAX, u64::MAX, 0, 0, 0),
        Ok(Deposit { minted: 2_000_000, deposit_a: 1_000_000, deposit_b: 4_000_000 })
    );
}

#[test]
fn first_deposit_becomes_the_reserves() {
    let mut ctx = provide_accounts(0, 0, 0, 1000, 1000);
    let receipt = handler(&mut ctx, 400, 900).unwrap();
    assert_eq!(receipt.deposit, Deposit { minted: 600, deposit_a: 400, deposit_b: 900 });
    assert_eq!(ctx.reserve_a.amount, 400);
    assert_eq!(ctx.reserve_b.amount, 900);
    assert_eq!(ctx.pool_mint.supply, 600);
    assert_eq!(ctx.pool_state.amount_minted, 600);
}

#[test]
fn first_deposit_of_a_product_beyond_64_bits_fails_on_arithmetic() {
    assert_eq!(
        calculate_deposit(1 << 32, 1 << 32, u64::MAX, u64::MAX, 0, 0, 0),
        Err(ErrorCode::ArithmeticFailure)
    );
    assert_eq!(
        calculate_deposit(1 << 32, (1 << 32) - 1, u64::MAX, u64::MAX, 0, 0, 0),
        Ok(Deposit { minted: 4_294_967_295, deposit_a: 1 << 32, deposit_b: (1 << 32) - 1 })
    );
}

#[test]
fn deposit_in_the_ratio_of_the_reserves() {
    assert_eq!(
        calculate_deposit(100, 300, 1000, 1000, 1000, 2000, 1000),
        Ok(Deposit { minted: 100, deposit_a: 100, deposit_b: 200 })
    );
    let mut ctx = provide_accounts(1000, 2000, 1000, 1000, 1000);
    let receipt = handler(&mut ctx, 100, 300).unwrap();
    assert_eq!(receipt.deposit, Deposit { minted: 100, deposit_a: 100, deposit_b: 200 });
    assert_eq!(ctx.reserve_a.amount, 1100);
    assert_eq!(ctx.reserve_b.amount, 2200);
    assert_eq!(ctx.pool_mint.supply, 1100);
    assert_eq!(ctx.pool_state.amount_minted, 1100);
}

#[test]
fn deposit_that_does_not_cover_the_ratio_is_refused() {
    assert_eq!(
        calculate_deposit(100, 50, 1000, 1000, 1000, 2000, 1000),
        Err(ErrorCode::InsufficientLiquidityProvided)
    );
    let mut ctx = provide_accounts(1000, 2000, 1000, 1000, 1000);
    let before = ctx;
    assert_eq!(handler(&mut ctx, 100, 50), Err(ErrorCode::InsufficientLiquidityProvided));
    assert_eq!(ctx, before);
}

#[test]
fn deposit_that_just_covers_the_ratio_is_accepted() {
    assert_eq!(
        calculate_deposit(100, 200, 1000, 1000, 1000, 2000, 1000),
        Ok(Deposit { minted: 100, deposit_a: 100, deposit_b: 200 })
    );
    assert_eq!(
        calculate_deposit(100, 199, 1000, 1000, 1000, 2000, 1000),
        Err(ErrorCode::InsufficientLiquidityProvided)
    );
}

#[test]
fn deposit_rounds_shares_and_asset_b_down() {
    // minted floor(10 * 7 / 3) = 23, asset b floor(5 * 10 / 3) = 16
    assert_eq!(
        calculate_deposit(10, 20, 100, 100, 3, 5, 7),
        Ok(Deposit { minted: 23, deposit_a: 10, deposit_b: 16 })
    );
}

#[test]
fn deposit_must_be_strictly_below_the_providers_balances() {
    assert_eq!(
        calculate_deposit(100, 300, 100, 1000, 1000, 2000, 1000),
        Err(ErrorCode::InsufficientLiquidityProvided)
    );
    assert_eq!(
        calculate_deposit(100, 300, 1000, 300, 1000, 2000, 1000),
        Err(ErrorCode::InsufficientLiquidityProvided)
    );
    assert_eq!(
        calculate_deposit(100, 300, 101, 301, 1000, 2000, 1000),
        Ok(Deposit { minted: 100, deposit_a: 100, deposit_b: 200 })
    );
    // the balance is looked at before anything is multiplied
    assert_eq!(
        calculate_deposit(u64::MAX, u64::MAX, u64::MAX, u64::MAX, 0, 0, 0),
        Err(ErrorCode::InsufficientLiquidityProvided)
    );
}

#[test]
fn deposit_into_a_pool_with_one_empty_reserve_fails_on_arithmetic() {
    assert_eq!(
        calculate_deposit(100, 300, 1000, 1000, 0, 2000, 1000),
        Err(ErrorCode::ArithmeticFailure)
    );
}

#[test]
fn deposit_whose_products_leave_64_bits_fails_on_arithmetic() {
    // amount_a * supply
    assert_eq!(
        calculate_deposit(1 << 32, 1, u64::MAX, 10, 1 << 40, 1, 1 << 32),
        Err(ErrorCode::ArithmeticFailure)
    );
    // reserve_b * amount_a, also where the ratio would not be covered
    assert_eq!(
        calculate_deposit(1 << 32, 1, u64::MAX, 10, 1 << 40, 1 << 32, 1),
        Err(ErrorCode::ArithmeticFailure)
    );
}

#[test]
fn deposit_that_would_overfill_the_pool_fails_on_arithmetic() {
    let mut ctx = provide_accounts(u64::MAX - 5, 10, 10, 1000, 1000);
    let before = ctx;
    assert_eq!(handler(&mut ctx, 6, 1), Err(ErrorCode::ArithmeticFailure));
    assert_eq!(ctx, before);
    // the shares fit, the supply with them does not
    assert_eq!(
        calculate_deposit(1, 1, 1000, 1000, 1, 1, u64::MAX - 5),
        Ok(Deposit { minted: u64::MAX - 5, deposit_a: 1, deposit_b: 1 })
    );
    let mut ctx = provide_accounts(1, 1, u64::MAX - 5, 1000, 1000);
    let before = ctx;
    assert_eq!(handler(&mut ctx, 1, 1), Err(ErrorCode::ArithmeticFailure));
    assert_eq!(ctx, before);
    // reserve b cannot take its part
    let mut ctx = provide_accounts(1, u64::MAX, 1, 1000, 1000);
    assert_eq!(handler(&mut ctx, 0, 1), Ok(helio_dex::instructions::DepositReceipt {
        deposit: Deposit { minted: 0, deposit_a: 0, deposit_b: 0 },
        instructions: handler(&mut provide_accounts(1, u64::MAX, 1, 1000, 1000), 0, 1)
            .unwrap()
            .instructions,
    }));
}

#[test]
fn deposit_instructions_mint_first_then_move_both_assets() {
    let mut ctx = provide_accounts(1000, 2000, 1000, 1000, 1000);
    let receipt = handler(&mut ctx, 100, 300).unwrap();
    let seeds = Some(SignerSeeds { owner: provide_key(10), bump: 253 });
    assert_eq!(
        receipt.instructions,
        vec![
            TokenInstruction::MintTo(
                CpiContext {
                    program: provide_key(20),
                    accounts: MintTo {
                        mint: provide_key(13),
                        to: provide_key(6),
                        authority: provide_key(9),
                    },
                    signer_seeds: seeds,
                },
                100,
            ),
            TokenInstruction::Transfer(
                CpiContext {
                    program: provide_key(20),
                    accounts: Transfer {
                        from: provide_key(4),
                        to: provide_key(2),
                        authority: provide_key(1),
                    },
                    signer_seeds: seeds,
                },
                100,
            ),
            TokenInstruction::Transfer(
                CpiContext {
                    program: provide_key(20),
                    accounts: Transfer {
                        from: provide_key(5),
                        to: provide_key(3),
                        authority: provide_key(1),
                    },
                    signer_seeds: seeds,
                },
                200,
            ),
        ]
    );
}

#[test]
fn deposit_contexts_name_the_right_authority() {
    let ctx = provide_accounts(1000, 2000, 1000, 1000, 1000);
    assert_eq!(ctx.transfer_to_reserve_a_ctx().accounts.authority, provide_key(1));
    assert_eq!(ctx.transfer_to_reserve_b_ctx().accounts.authority, provide_key(1));
    assert_eq!(ctx.pool_liq_mint_ctx().accounts.authority, provide_key(9));
    assert_eq!(ctx.pool_liq_mint_ctx().signer_seeds, None);
    assert_eq!(ctx.transfer_to_reserve_b_ctx().accounts.to, provide_key(3));
}

#[test]
fn deposit_leaves_the_providers_accounts_as_read() {
    let mut ctx = provide_accounts(1000, 2000, 1000, 1000, 1000);
    let before = ctx;
    handler(&mut ctx, 100, 300).unwrap();
    assert_eq!(ctx.provider_reserve_a, before.provider_reserve_a);
    assert_eq!(ctx.provider_reserve_b, before.provider_reserve_b);
    assert_eq!(ctx.provider_pool_reserve, before.provider_pool_reserve);
    assert_eq!(ctx.helio, before.helio);
}

#[test]
fn deposit_mint_is_signed_by_the_authority_that_the_market_names() {
    let mut ctx = provide_accounts(1000, 2000, 1000, 1000, 1000);
    ctx.exchange_authority = provide_key(66);
    assert_eq!(ctx.pool_liq_mint_ctx().accounts.authority, provide_key(9));
    let receipt = handler(&mut ctx, 100, 300).unwrap();
    match receipt.instructions[0] {
        TokenInstruction::MintTo(call, amount) => {
            assert_eq!(call.accounts.authority, provide_key(9));
            assert_eq!(amount, 100);
        }
        _ => panic!("the first instruction is the mint"),
    }
}
