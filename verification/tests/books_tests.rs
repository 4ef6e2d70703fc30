use anchor_lang::prelude::Pubkey;
use helio_dex::errors::ErrorCode;
use helio_dex::instructions::{InitializePool, ProvideLiquidity, RemoveLiquidity, Swap};
use helio_dex::state::{Helio, Mint, PoolState, TokenAccount};
use helio_dex::{initialize_pool, provide_liquidity, remove_liquidity, swap};

fn books_key(n: u8) -> Pubkey {
    Pubkey::new_from_array([n; 32])
}

fn books_account(n: u8, amount: u64) -> TokenAccount {
    TokenAccount { key: books_key(n), owner: books_key(1), amount }
}

fn books_market() -> Helio {
    Helio {
        exchange_authority: books_key(9),
        owner: books_key(10),
        lp_reward_num: 997,
        lp_reward_denom: 1000,
        exchange_auth_bump: 250,
    }
}

fn opened_pool() -> PoolState {
    let mut ctx = InitializePool {
        payer: books_key(1),
        pool_state: PoolState {
            reserve_a: books_key(0),
            reserve_b: books_key(0),
            mint_a: books_key(0),
            mint_b: books_key(0),
            pool_mint: books_key(0),
            fee_reserve: books_key(0),
            protocol_tip_num: 0,
            protocol_tip_denom: 0,
            amount_minted: 0,
        },
        exchange_authority: books_key(9),
        reserve_a: books_account(2, 0),
        reserve_b: books_account(3, 0),
        fee_reserve: books_account(14, 0),
        mint_a: Mint { key: books_key(11), supply: 1 << 40 },
        mint_b: Mint { key: books_key(12), supply: 1 << 40 },
        pool_mint: Mint { key: books_key(13), supply: 0 },
        token_program: books_key(20),
        system_program: books_key(21),
        rent: books_key(22),
    };
    initialize_pool(&mut ctx, 1, 20);
    ctx.pool_state
}

fn deposit_through(
    pool: &mut PoolState,
    levels: &mut (u64, u64, u64),
    amount_a: u64,
    amount_b: u64,
) -> Result<u64, ErrorCode> {
    let mut ctx = ProvideLiquidity {
        provider: books_key(1),
        exchange_authority: books_key(9),
        helio: books_market(),
        reserve_a: books_account(2, levels.0),
        reserve_b: books_account(3, levels.1),
        pool_mint: Mint { key: books_key(13), supply: levels.2 },
        provider_reserve_a: books_account(4, 1 << 50),
        provider_reserve_b: books_account(5, 1 << 50),
        provider_pool_reserve: books_account(6, 0),
        pool_state: *pool,
        token_program: books_key(20),
    };
    let receipt = provide_liquidity(&mut ctx, amount_a, amount_b)?;
    *pool = ctx.pool_state;
    *levels = (ctx.reserve_a.amount, ctx.reserve_b.amount, ctx.pool_mint.supply);
    Ok(receipt.deposit.minted)
}

fn withdraw_through(
    pool: &mut PoolState,
    levels: &mut (u64, u64, u64),
    burn: u64,
) -> Result<u64, ErrorCode> {
    let mut ctx = RemoveLiquidity {
        provider: books_key(1),
        exchange_authority: books_key(9),
        helio: books_market(),
        reserve_a: books_account(2, levels.0),
        reserve_b: books_account(3, levels.1),
        fee_reserve: books_account(14, 0),
        pool_mint: Mint { key: books_key(13), supply: levels.2 },
        provider_reserve_a: books_account(4, 0),
        provider_reserve_b: books_account(5, 0),
        provider_pool_reserve: books_account(6, levels.2),
        pool_state: *pool,
        token_program: books_key(20),
    };
    let receipt = remove_liquidity(&mut ctx, burn)?;
    *pool = ctx.pool_state;
    *levels = (ctx.reserve_a.amount, ctx.reserve_b.amount, ctx.pool_mint.supply);
    Ok(receipt.withdrawal.net_burn)
}

fn swap_through(pool: &PoolState, levels: &mut (u64, u64, u64), amount_in: u64) -> Result<u64, ErrorCode> {
    let mut ctx = Swap {
        trader: books_key(1),
        reserve_a: books_account(2, levels.0),
        reserve_b: books_account(3, levels.1),
        trader_reserve_a: books_account(4, 1 << 50),
        trader_reserve_b: books_account(5, 0),
        exchange_authority: books_key(9),
        helio: books_market(),
        pool_state: *pool,
        token_program: books_key(20),
    };
    let receipt = swap(&mut ctx, amount_in)?;
    *levels = (ctx.reserve_a.amount, ctx.reserve_b.amount, levels.2);
    Ok(receipt.amount_out)
}

#[test]
fn shares_follow_mints_and_burns_over_a_run() {
    let mut pool = opened_pool();
    assert_eq!(pool.amount_minted, 0);
    let mut levels: (u64, u64, u64) = (0, 0, 0);
    let mut net_minted: u64 = 0;

    net_minted += deposit_through(&mut pool, &mut levels, 10_000, 40_000).unwrap();
    assert_eq!(levels, (10_000, 40_000, 20_000));
    assert_eq!(pool.amount_minted, net_minted);

    assert_eq!(swap_through(&pool, &mut levels, 1_000), Ok(3_626));
    assert_eq!(levels, (11_000, 36_374, 20_000));

    // refused: asset b does not cover the ratio
    assert_eq!(
        deposit_through(&mut pool, &mut levels, 1_100, 3_000),
        Err(ErrorCode::InsufficientLiquidityProvided)
    );
    assert_eq!(levels, (11_000, 36_374, 20_000));
    assert_eq!(pool.amount_minted, net_minted);

    net_minted += deposit_through(&mut pool, &mut levels, 1_100, 4_000).unwrap();
    assert_eq!(levels, (12_100, 40_011, 22_000));
    assert_eq!(pool.amount_minted, net_minted);

    // tip of a twentieth: 100 shares stay outstanding
    net_minted -= withdraw_through(&mut pool, &mut levels, 2_000).unwrap();
    assert_eq!(levels, (11_055, 36_556, 20_100));
    assert_eq!(net_minted, 20_100);
    assert_eq!(pool.amount_minted, net_minted);

    // refused: nothing offered
    assert_eq!(swap_through(&pool, &mut levels, 0), Err(ErrorCode::DepositAmountIsZero));
    assert_eq!(levels, (11_055, 36_556, 20_100));

    net_minted -= withdraw_through(&mut pool, &mut levels, 20_100).unwrap();
    assert_eq!(net_minted, 1_005);
    assert_eq!(levels.2, 1_005);
    assert_eq!(pool.amount_minted, 1_005);
    assert!(levels.0 > 0 && levels.1 > 0);
}

#[test]
fn entry_points_refuse_as_their_handlers_do() {
    let mut pool = opened_pool();
    let mut levels: (u64, u64, u64) = (1000, 1000, 1000);
    assert_eq!(
        withdraw_through(&mut pool, &mut levels, 1001),
        Err(ErrorCode::InsufficientLiquidityTokens)
    );
    assert_eq!(swap_through(&pool, &mut levels, 1 << 51), Err(ErrorCode::InsufficientTokenBalance));
    assert_eq!(
        deposit_through(&mut pool, &mut levels, 1 << 50, 1),
        Err(ErrorCode::InsufficientLiquidityProvided)
    );
    assert_eq!(levels, (1000, 1000, 1000));
}
