use anchor_lang::prelude::Pubkey;
use helio_dex::errors::ErrorCode;
use helio_dex::instructions::{InitializeHelio, InitializeHelioBumps, InitializePool};
use helio_dex::state::{Helio, Mint, PoolState, TokenAccount};
use helio_dex::{initialize_market, initialize_pool};

fn opening_key(n: u8) -> Pubkey {
    Pubkey::new_from_array([n; 32])
}

fn blank_market() -> Helio {
    Helio {
        exchange_authority: opening_key(0),
        owner: opening_key(0),
        lp_reward_num: 0,
        lp_reward_denom: 0,
        exchange_auth_bump: 0,
    }
}

fn blank_pool() -> PoolState {
    PoolState {
        reserve_a: opening_key(0),
        reserve_b: opening_key(0),
        mint_a: opening_key(0),
        mint_b: opening_key(0),
        pool_mint: opening_key(0),
        fee_reserve: opening_key(0),
        protocol_tip_num: 0,
        protocol_tip_denom: 0,
        amount_minted: 77,
    }
}

fn market_accounts() -> InitializeHelio {
    InitializeHelio {
        owner: opening_key(10),
        helio: blank_market(),
        exchange_authority: opening_key(9),
        token_program: opening_key(20),
        system_program: opening_key(21),
    }
}

fn pool_accounts() -> InitializePool {
    InitializePool {
        payer: opening_key(1),
        pool_state: blank_pool(),
        exchange_authority: opening_key(9),
        reserve_a: TokenAccount { key: opening_key(2), owner: opening_key(9), amount: 0 },
        reserve_b: TokenAccount { key: opening_key(3), owner: opening_key(9), amount: 0 },
        fee_reserve: TokenAccount { key: opening_key(14), owner: opening_key(9), amount: 0 },
        mint_a: Mint { key: opening_key(11), supply: 5_000 },
        mint_b: Mint { key: opening_key(12), supply: 6_000 },
        pool_mint: Mint { key: opening_key(13), supply: 0 },
        token_program: opening_key(20),
        system_program: opening_key(21),
        rent: opening_key(22),
    }
}

#[test]
fn market_is_opened_with_its_fee_and_authority() {
    let mut ctx = market_accounts();
    helio_dex::instructions::init_helio::handler(
        &mut ctx,
        InitializeHelioBumps { exchange_authority: 251 },
        997,
        1000,
    );
    assert_eq!(
        ctx.helio,
        Helio {
            exchange_authority: opening_key(9),
            owner: opening_key(10),
            lp_reward_num: 997,
            lp_reward_denom: 1000,
            exchange_auth_bump: 251,
        }
    );
    assert_eq!(ctx.owner, opening_key(10));
    assert_eq!(ctx.exchange_authority, opening_key(9));
    assert_eq!(ctx.token_program, opening_key(20));
    assert_eq!(ctx.system_program, opening_key(21));
}

#[test]
fn market_entry_point_does_what_its_handler_does() {
    let mut by_entry = market_accounts();
    let mut by_handler = market_accounts();
    let bumps = InitializeHelioBumps { exchange_authority: 7 };
    initialize_market(&mut by_entry, bumps, 3, 4);
    helio_dex::instructions::init_helio::handler(&mut by_handler, bumps, 3, 4);
    assert_eq!(by_entry, by_handler);
    assert_eq!(by_entry.helio.lp_reward_num, 3);
    assert_eq!(by_entry.helio.lp_reward_denom, 4);
}

#[test]
fn pool_is_opened_with_no_shares_outstanding() {
    let mut ctx = pool_accounts();
    helio_dex::instructions::init_pool::handler(&mut ctx, 1, 10);
    assert_eq!(
        ctx.pool_state,
        PoolState {
            reserve_a: opening_key(2),
            reserve_b: opening_key(3),
            mint_a: opening_key(11),
            mint_b: opening_key(12),
            pool_mint: opening_key(13),
            fee_reserve: opening_key(14),
            protocol_tip_num: 1,
            protocol_tip_denom: 10,
            amount_minted: 0,
        }
    );
    let untouched = pool_accounts();
    assert_eq!(ctx.reserve_a, untouched.reserve_a);
    assert_eq!(ctx.mint_a, untouched.mint_a);
    assert_eq!(ctx.payer, untouched.payer);
}

#[test]
fn pool_entry_point_does_what_its_handler_does() {
    let mut by_entry = pool_accounts();
    let mut by_handler = pool_accounts();
    initialize_pool(&mut by_entry, 10, 10);
    helio_dex::instructions::init_pool::handler(&mut by_handler, 10, 10);
    assert_eq!(by_entry, by_handler);
    assert_eq!(by_entry.pool_state.protocol_tip_num, 10);
}

#[test]
fn records_have_their_stored_sizes() {
    assert_eq!(Helio::LEN, 89);
    assert_eq!(PoolState::LEN, 256);
}

#[test]
fn every_error_has_its_message() {
    assert_eq!(
        ErrorCode::InsufficientLiquidityProvided.message(),
        "Provider has Insufficient Liquidity"
    );
    assert_eq!(
        ErrorCode::InsufficientLiquidityPresent.message(),
        "Reserve does not have enough liquidity"
    );
    assert_eq!(
        ErrorCode::InsufficientLiquidityTokens.message(),
        "Provider does not have enough liquidity tokens"
    );
    assert_eq!(
        ErrorCode::InsufficientTokenBalance.message(),
        "Trader has insufficient token balance"
    );
    assert_eq!(ErrorCode::DepositAmountIsZero.message(), "Amount deposited cannot be zero");
    assert_eq!(
        ErrorCode::InsufficientReturnedAmount.message(),
        "Insufficient amount will be returned"
    );
    assert_eq!(
        ErrorCode::ArithmeticFailure.message(),
        "Arithmetic overflowed or divided by zero"
    );
}
