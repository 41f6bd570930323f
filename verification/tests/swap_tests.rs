use agent_mock_defi::error::MockDefiError;
use agent_mock_defi::error::TransferError;
use agent_mock_defi::initialize_pool::InitializePool;
use agent_mock_defi::initialize_pool::Pool;
use agent_mock_defi::state::PoolRegistry;
use agent_mock_defi::swap::Swap;
use agent_mock_defi::token::TokenAccount;

fn program_id() -> Vec<u8> {
    vec![7u8; 32]
}

const MINT_USD: u8 = 1;
const MINT_EUR: u8 = 2;

fn user_account(mint: u8, amount: u64) -> TokenAccount {
    TokenAccount {
        mint: vec![mint; 32],
        owner: vec![11u8; 32],
        amount,
        frozen: false,
    }
}

fn seeded_pool(reserve_a: u64, reserve_b: u64) -> Pool {
    let mut registry = PoolRegistry::new();
    let accounts = InitializePool {
        admin: vec![9u8; 32],
        mint_a: vec![MINT_USD; 32],
        mint_b: vec![MINT_EUR; 32],
    };
    let mut pool = agent_mock_defi::initialize_pool(&mut registry, &accounts, &program_id())
        .expect("pool creation");
    // Credits may come from anyone: seed the reserves directly.
    pool.vault_a.amount = reserve_a;
    pool.vault_b.amount = reserve_b;
    pool
}

/// A request swapping the first asset for the second, with the user holding
/// `user_usd` of the input asset and `user_eur` of the output asset.
fn a_to_b_request(pool: Pool, user_usd: u64, user_eur: u64) -> Swap {
    Swap {
        user: vec![11u8; 32],
        pool_state: pool.state,
        pool_authority: pool.authority,
        user_source: user_account(MINT_USD, user_usd),
        user_destination: user_account(MINT_EUR, user_eur),
        vault_source: pool.vault_a,
        vault_destination: pool.vault_b,
        source_mint: vec![MINT_USD; 32],
        destination_mint: vec![MINT_EUR; 32],
    }
}

#[test]
fn parity_swap_settles_all_four_balances() {
    let pool = seeded_pool(1_000_000, 1_000_000);
    let mut ctx = a_to_b_request(pool, 500, 0);
    let event = agent_mock_defi::swap_a_for_b(&mut ctx, 100, &program_id()).expect("swap");
    assert_eq!(event.user, vec![11u8; 32]);
    assert_eq!(event.direction, 1);
    assert_eq!(event.amount_in, 100);
    assert_eq!(event.amount_out, 100);
    assert_eq!(ctx.user_source.amount, 400);
    assert_eq!(ctx.vault_source.amount, 1_000_100);
    assert_eq!(ctx.vault_destination.amount, 999_900);
    assert_eq!(ctx.user_destination.amount, 100);
}

#[test]
fn zero_amount_is_rejected() {
    let pool = seeded_pool(1_000_000, 1_000_000);
    let mut ctx = a_to_b_request(pool, 500, 0);
    let result = agent_mock_defi::swap_a_for_b(&mut ctx, 0, &program_id());
    assert!(matches!(result, Err(MockDefiError::InvalidAmount)));
    assert_eq!(ctx.user_source.amount, 500);
    assert_eq!(ctx.vault_source.amount, 1_000_000);
    assert_eq!(ctx.vault_destination.amount, 1_000_000);
    assert_eq!(ctx.user_destination.amount, 0);
}

#[test]
fn underfunded_reserve_is_rejected_without_transfers() {
    let pool = seeded_pool(1_000_000, 50);
    let mut ctx = a_to_b_request(pool, 500, 0);
    let result = agent_mock_defi::swap_a_for_b(&mut ctx, 100, &program_id());
    assert!(matches!(result, Err(MockDefiError::InsufficientLiquidity)));
    assert_eq!(ctx.user_source.amount, 500);
    assert_eq!(ctx.vault_source.amount, 1_000_000);
    assert_eq!(ctx.vault_destination.amount, 50);
    assert_eq!(ctx.user_destination.amount, 0);
}

#[test]
fn wrong_authority_is_rejected_without_transfers() {
    let pool = seeded_pool(1_000_000, 1_000_000);
    let wrong_authority = pool.address.clone();
    let mut ctx = a_to_b_request(pool, 500, 0);
    ctx.pool_authority = wrong_authority;
    let result = agent_mock_defi::swap_a_for_b(&mut ctx, 100, &program_id());
    assert!(matches!(result, Err(MockDefiError::AuthorityMismatch)));
    assert_eq!(ctx.user_source.amount, 500);
    assert_eq!(ctx.vault_source.amount, 1_000_000);
    assert_eq!(ctx.vault_destination.amount, 1_000_000);
    assert_eq!(ctx.user_destination.amount, 0);
}

#[test]
fn round_trip_restores_all_four_balances() {
    let pool = seeded_pool(1_000_000, 1_000_000);
    let mut there = a_to_b_request(pool, 500, 25);
    agent_mock_defi::swap_a_for_b(&mut there, 100, &program_id()).expect("first swap");
    let mut back = Swap {
        user: there.user,
        pool_state: there.pool_state,
        pool_authority: there.pool_authority,
        user_source: there.user_destination,
        user_destination: there.user_source,
        vault_source: there.vault_destination,
        vault_destination: there.vault_source,
        source_mint: there.destination_mint,
        destination_mint: there.source_mint,
    };
    let event = agent_mock_defi::swap_b_for_a(&mut back, 100, &program_id()).expect("return swap");
    assert_eq!(event.direction, 2);
    assert_eq!(back.user_destination.amount, 500);
    assert_eq!(back.user_source.amount, 25);
    assert_eq!(back.vault_destination.amount, 1_000_000);
    assert_eq!(back.vault_source.amount, 1_000_000);
}

#[test]
fn short_user_balance_fails_the_first_leg() {
    let pool = seeded_pool(1_000_000, 1_000_000);
    let mut ctx = a_to_b_request(pool, 99, 0);
    let result = agent_mock_defi::swap_a_for_b(&mut ctx, 100, &program_id());
    assert!(matches!(
        result,
        Err(MockDefiError::Transfer(TransferError::InsufficientBalance))
    ));
    assert_eq!(ctx.user_source.amount, 99);
    assert_eq!(ctx.vault_source.amount, 1_000_000);
}

#[test]
fn wrong_asset_account_fails_the_first_leg() {
    let pool = seeded_pool(1_000_000, 1_000_000);
    let mut ctx = a_to_b_request(pool, 500, 0);
    ctx.user_source = user_account(MINT_EUR, 500);
    let result = agent_mock_defi::swap_a_for_b(&mut ctx, 100, &program_id());
    assert!(matches!(
        result,
        Err(MockDefiError::Transfer(TransferError::AssetMismatch))
    ));
    assert_eq!(ctx.vault_source.amount, 1_000_000);
    assert_eq!(ctx.user_destination.amount, 0);
}

#[test]
fn frozen_source_account_fails_the_first_leg() {
    let pool = seeded_pool(1_000_000, 1_000_000);
    let mut ctx = a_to_b_request(pool, 500, 0);
    ctx.user_source.frozen = true;
    let result = agent_mock_defi::swap_a_for_b(&mut ctx, 100, &program_id());
    assert!(matches!(
        result,
        Err(MockDefiError::Transfer(TransferError::AccountFrozen))
    ));
    assert_eq!(ctx.user_source.amount, 500);
    assert_eq!(ctx.vault_source.amount, 1_000_000);
}

#[test]
fn failing_second_leg_unwinds_the_first() {
    let pool = seeded_pool(1_000_000, 1_000_000);
    let mut ctx = a_to_b_request(pool, 500, 0);
    // The first leg settles, then the disbursal hits a frozen destination.
    ctx.user_destination.frozen = true;
    let result = agent_mock_defi::swap_a_for_b(&mut ctx, 100, &program_id());
    assert!(matches!(
        result,
        Err(MockDefiError::Transfer(TransferError::AccountFrozen))
    ));
    assert_eq!(ctx.user_source.amount, 500);
    assert_eq!(ctx.vault_source.amount, 1_000_000);
    assert_eq!(ctx.vault_destination.amount, 1_000_000);
    assert_eq!(ctx.user_destination.amount, 0);
}

#[test]
fn direction_flag_is_recorded_verbatim() {
    let pool = seeded_pool(1_000_000, 1_000_000);
    let mut ctx = a_to_b_request(pool, 500, 0);
    let event =
        agent_mock_defi::swap::swap_handler(&mut ctx, 100, 2, &program_id()).expect("swap");
    assert_eq!(event.direction, 2);
    assert_eq!(event.amount_in, 100);
    assert_eq!(event.amount_out, 100);
}
