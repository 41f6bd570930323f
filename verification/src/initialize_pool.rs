//! Pool creation: derive the pool record's address and the pool authority,
//! allocate the two reserves owned by that authority, and persist the record.

use vstd::prelude::*;

use crate::derivation::authority_address_at;
use crate::derivation::copy_bytes;
use crate::derivation::derive_pool_address;
use crate::derivation::derive_pool_authority;
use crate::derivation::pool_address_at;
use crate::derivation::ADDRESS_LEN;
use crate::error::MockDefiError;
use crate::state::has_pair;
use crate::state::PoolRegistry;
use crate::state::PoolState;
use crate::token::TokenAccount;

verus! {

/// The inputs of pool creation: the creator and the ordered asset pair.
pub struct InitializePool {
    /// Identity of the creating account.
    pub admin: Vec<u8>,
    /// First asset of the pair; the order is fixed from here on.
    pub mint_a: Vec<u8>,
    /// Second asset of the pair.
    pub mint_b: Vec<u8>,
}

impl InitializePool {
    /// All three identities have the fixed address length.
    pub open spec fn wf(self) -> bool {
        self.admin@.len() == ADDRESS_LEN
            && self.mint_a@.len() == ADDRESS_LEN
            && self.mint_b@.len() == ADDRESS_LEN
    }
}

/// Everything pool creation allocates: the record, its derived addresses, and
/// the two empty reserves owned by the derived authority.
pub struct Pool {
    /// The durable record; only this is kept by the registry.
    pub state: PoolState,
    /// The pool record's own derived address.
    pub address: Vec<u8>,
    /// The pool authority's derived address; owner of both reserves.
    pub authority: Vec<u8>,
    /// Reserve custodying the first asset.
    pub vault_a: TokenAccount,
    /// Reserve custodying the second asset.
    pub vault_b: TokenAccount,
}

/// What a successfully created pool looks like: the record carries the
/// inputs and the found bumps; both addresses are exactly the ones the stored
/// bumps re-derive, with every larger bump invalid; and each reserve is an
/// empty, unfrozen account of its asset owned by the authority.
pub open spec fn created_pool_ok(pool: Pool, accounts: InitializePool, program_id: Seq<u8>) -> bool {
    &&& pool.state@.admin == accounts.admin@
    &&& pool.state@.mint_a == accounts.mint_a@
    &&& pool.state@.mint_b == accounts.mint_b@
    &&& pool.state.bump >= 1
    &&& Some(pool.address@) == pool_address_at(accounts.mint_a@, accounts.mint_b@, pool.state.bump, program_id)
    &&& (forall|b: u8|
        b > pool.state.bump ==> #[trigger] pool_address_at(
            accounts.mint_a@,
            accounts.mint_b@,
            b,
            program_id,
        ) is None)
    &&& pool.state.authority_bump >= 1
    &&& Some(pool.authority@) == authority_address_at(pool.address@, pool.state.authority_bump, program_id)
    &&& (forall|b: u8|
        b > pool.state.authority_bump ==> #[trigger] authority_address_at(
            pool.address@,
            b,
            program_id,
        ) is None)
    &&& pool.address@.len() == ADDRESS_LEN
    &&& pool.authority@.len() == ADDRESS_LEN
    &&& pool.vault_a@.mint == accounts.mint_a@
    &&& pool.vault_a@.owner == pool.authority@
    &&& pool.vault_a@.amount == 0
    &&& !pool.vault_a@.frozen
    &&& pool.vault_b@.mint == accounts.mint_b@
    &&& pool.vault_b@.owner == pool.authority@
    &&& pool.vault_b@.amount == 0
    &&& !pool.vault_b@.frozen
}

/// When allocation fails: either no bump at all derives a pool address for
/// the pair, or one does — the largest valid bump — and no bump derives an
/// authority address for the pool address it yields.
pub open spec fn allocation_failed(mint_a: Seq<u8>, mint_b: Seq<u8>, program_id: Seq<u8>) -> bool {
    ||| (forall|b: u8| b >= 1 ==> #[trigger] pool_address_at(mint_a, mint_b, b, program_id) is None)
    ||| (exists|pb: u8|
        {
            &&& pb >= 1
            &&& (#[trigger] pool_address_at(mint_a, mint_b, pb, program_id)) is Some
            &&& (forall|b: u8| b > pb ==> #[trigger] pool_address_at(mint_a, mint_b, b, program_id) is None)
            &&& (forall|b: u8|
                b >= 1 ==> #[trigger] authority_address_at(
                    pool_address_at(mint_a, mint_b, pb, program_id).unwrap(),
                    b,
                    program_id,
                ) is None)
        })
}

/// Create the pool for an ordered asset pair: reject a duplicate pair, search
/// the bump space for the pool record's address and then for the pool
/// authority's address, allocate the two reserves under that authority, and
/// persist the record in the registry. The bump searches run from the top of
/// the bump space downward, as the address service does.
pub fn handler(registry: &mut PoolRegistry, accounts: &InitializePool, program_id: &Vec<u8>) -> (r: Result<
    Pool,
    MockDefiError,
>)
    requires
        accounts.wf(),
        program_id@.len() == ADDRESS_LEN,
    ensures
        r matches Ok(pool) ==> ({
            &&& created_pool_ok(pool, *accounts, program_id@)
            &&& !has_pair(old(registry)@, accounts.mint_a@, accounts.mint_b@)
            &&& final(registry)@ == old(registry)@.push(pool.state@)
        }),
        r == Err::<Pool, MockDefiError>(MockDefiError::DuplicatePool) <==> has_pair(
            old(registry)@,
            accounts.mint_a@,
            accounts.mint_b@,
        ),
        r == Err::<Pool, MockDefiError>(MockDefiError::AllocationFailed) ==> ({
            &&& !has_pair(old(registry)@, accounts.mint_a@, accounts.mint_b@)
            &&& allocation_failed(accounts.mint_a@, accounts.mint_b@, program_id@)
        }),
        r is Err ==> ({
            &&& (r == Err::<Pool, MockDefiError>(MockDefiError::DuplicatePool) || r == Err::<
                Pool,
                MockDefiError,
            >(MockDefiError::AllocationFailed))
            &&& final(registry)@ == old(registry)@
        }),
{
    if registry.contains_pair(&accounts.mint_a, &accounts.mint_b) {
        return Err(MockDefiError::DuplicatePool);
    }
    let found_pool = derive_pool_address(&accounts.mint_a, &accounts.mint_b, program_id);
    let (address, bump) = match found_pool {
        Some(p) => p,
        None => {
            return Err(MockDefiError::AllocationFailed);
        },
    };
    let found_authority = derive_pool_authority(&address, program_id);
    let (authority, authority_bump) = match found_authority {
        Some(p) => p,
        None => {
            return Err(MockDefiError::AllocationFailed);
        },
    };
    let state = PoolState {
        admin: copy_bytes(&accounts.admin),
        mint_a: copy_bytes(&accounts.mint_a),
        mint_b: copy_bytes(&accounts.mint_b),
        bump,
        authority_bump,
    };
    let vault_a = TokenAccount {
        mint: copy_bytes(&accounts.mint_a),
        owner: copy_bytes(&authority),
        amount: 0,
        frozen: false,
    };
    let vault_b = TokenAccount {
        mint: copy_bytes(&accounts.mint_b),
        owner: copy_bytes(&authority),
        amount: 0,
        frozen: false,
    };
    let record = state.duplicate();
    registry.pools.push(record);
    proof {
        assert(registry@ =~= old(registry)@.push(state@));
    }
    Ok(Pool { state, address, authority, vault_a, vault_b })
}

/// Re-derivation law: for any created pool, the record's stored bumps
/// re-derive exactly the pool address and the authority address that were
/// created, and every larger bump value derives no address at all for the
/// same seeds.
pub proof fn lemma_rederive_created_pool(pool: Pool, accounts: InitializePool, program_id: Seq<u8>)
    requires
        created_pool_ok(pool, accounts, program_id),
    ensures
        pool_address_at(pool.state@.mint_a, pool.state@.mint_b, pool.state.bump, program_id) == Some(
            pool.address@,
        ),
        authority_address_at(pool.address@, pool.state.authority_bump, program_id) == Some(
            pool.authority@,
        ),
        forall|b: u8|
            b > pool.state.bump ==> #[trigger] pool_address_at(
                pool.state@.mint_a,
                pool.state@.mint_b,
                b,
                program_id,
            ) is None,
        forall|b: u8|
            b > pool.state.authority_bump ==> #[trigger] authority_address_at(
                pool.address@,
                b,
                program_id,
            ) is None,
{
}

} // verus!
