use agent_mock_defi::derivation::derive_pool_address;
use agent_mock_defi::derivation::derive_pool_authority;
use agent_mock_defi::derivation::rederive_pool_address;
use agent_mock_defi::derivation::rederive_pool_authority;
use agent_mock_defi::derivation::verify_pool_authority;
use agent_mock_defi::error::MockDefiError;
use agent_mock_defi::initialize_pool::InitializePool;
use agent_mock_defi::initialize_pool::Pool;
use agent_mock_defi::state::PoolRegistry;

fn program_id() -> Vec<u8> {
    vec![7u8; 32]
}

fn accounts() -> InitializePool {
    InitializePool {
        admin: vec![9u8; 32],
        mint_a: vec![1u8; 32],
        mint_b: vec![2u8; 32],
    }
}

fn create_pool(registry: &mut PoolRegistry) -> Pool {
    agent_mock_defi::initialize_pool(registry, &accounts(), &program_id()).expect("pool creation")
}

#[test]
fn create_pool_records_inputs_and_bumps() {
    let mut registry = PoolRegistry::new();
    let pool = create_pool(&mut registry);
    assert_eq!(pool.state.admin, vec![9u8; 32]);
    assert_eq!(pool.state.mint_a, vec![1u8; 32]);
    assert_eq!(pool.state.mint_b, vec![2u8; 32]);
    assert_eq!(pool.address.len(), 32);
    assert_eq!(pool.authority.len(), 32);
    assert_eq!(registry.pools.len(), 1);
    assert_eq!(pool.vault_a.mint, vec![1u8; 32]);
    assert_eq!(pool.vault_b.mint, vec![2u8; 32]);
    assert_eq!(pool.vault_a.owner, pool.authority);
    assert_eq!(pool.vault_b.owner, pool.authority);
    assert_eq!(pool.vault_a.amount, 0);
    assert_eq!(pool.vault_b.amount, 0);
    assert!(!pool.vault_a.frozen);
    assert!(!pool.vault_b.frozen);
}

#[test]
fn rederiving_from_stored_bumps_reproduces_created_addresses() {
    let mut registry = PoolRegistry::new();
    let pool = create_pool(&mut registry);
    let again = rederive_pool_address(
        &pool.state.mint_a,
        &pool.state.mint_b,
        pool.state.bump,
        &program_id(),
    );
    assert_eq!(again, Some(pool.address.clone()));
    let authority_again =
        rederive_pool_authority(&pool.address, pool.state.authority_bump, &program_id());
    assert_eq!(authority_again, Some(pool.authority.clone()));
    assert!(verify_pool_authority(
        &pool.address,
        pool.state.authority_bump,
        &pool.authority,
        &program_id(),
    ));
}

#[test]
fn rederivation_differs_for_other_pairs_and_bumps() {
    let mut registry = PoolRegistry::new();
    let pool = create_pool(&mut registry);
    // Every bump above the stored one derives nothing.
    let mut bump = pool.state.bump;
    while bump < 255 {
        bump += 1;
        assert_eq!(
            rederive_pool_address(&pool.state.mint_a, &pool.state.mint_b, bump, &program_id()),
            None
        );
    }
    // Another asset pair derives another address.
    let other = derive_pool_address(&vec![3u8; 32], &vec![4u8; 32], &program_id())
        .expect("derivation for the other pair");
    assert_ne!(other.0, pool.address);
    // The pair in the opposite order also derives another address.
    let flipped = derive_pool_address(&pool.state.mint_b, &pool.state.mint_a, &program_id())
        .expect("derivation for the flipped pair");
    assert_ne!(flipped.0, pool.address);
    // A claimed authority that is not the re-derived one is rejected.
    assert!(!verify_pool_authority(
        &pool.address,
        pool.state.authority_bump,
        &pool.address,
        &program_id(),
    ));
}

#[test]
fn derivation_matches_the_address_service() {
    let pid_bytes = program_id();
    let pid = solana_pubkey::Pubkey::new_from_array([7u8; 32]);
    let mint_a = vec![1u8; 32];
    let mint_b = vec![2u8; 32];
    let (found, bump) =
        derive_pool_address(&mint_a, &mint_b, &pid_bytes).expect("pool derivation");
    let (expected, expected_bump) = solana_pubkey::Pubkey::find_program_address(
        &[b"pool_state", &mint_a, &mint_b],
        &pid,
    );
    assert_eq!(found, expected.to_bytes().to_vec());
    assert_eq!(bump, expected_bump);
    let (authority, authority_bump) =
        derive_pool_authority(&found, &pid_bytes).expect("authority derivation");
    let (expected_authority, expected_authority_bump) =
        solana_pubkey::Pubkey::find_program_address(&[b"pool_authority", &found], &pid);
    assert_eq!(authority, expected_authority.to_bytes().to_vec());
    assert_eq!(authority_bump, expected_authority_bump);
}

#[test]
fn duplicate_pair_is_rejected() {
    let mut registry = PoolRegistry::new();
    let _pool = create_pool(&mut registry);
    let second = agent_mock_defi::initialize_pool(&mut registry, &accounts(), &program_id());
    assert!(matches!(second, Err(MockDefiError::DuplicatePool)));
    assert_eq!(registry.pools.len(), 1);
}

#[test]
fn distinct_pairs_both_get_pools() {
    let mut registry = PoolRegistry::new();
    let _pool = create_pool(&mut registry);
    let other = InitializePool {
        admin: vec![9u8; 32],
        mint_a: vec![2u8; 32],
        mint_b: vec![1u8; 32],
    };
    let second = agent_mock_defi::initialize_pool(&mut registry, &other, &program_id());
    assert!(second.is_ok());
    assert_eq!(registry.pools.len(), 2);
}
