//! A minimal two-asset exchange vault: one record per asset pair, a keyless
//! derived authority custodying two reserves, and a parity swap engine that
//! exchanges one asset for the other at a fixed one-to-one rate.

pub mod derivation;
pub mod error;
pub mod initialize_pool;
pub mod state;
pub mod swap;
pub mod token;

use vstd::prelude::*;

use crate::derivation::ADDRESS_LEN;
use crate::error::MockDefiError;
use crate::initialize_pool::allocation_failed;
use crate::initialize_pool::created_pool_ok;
use crate::initialize_pool::handler;
use crate::initialize_pool::InitializePool;
use crate::initialize_pool::Pool;
use crate::state::has_pair;
use crate::state::PoolRegistry;
use crate::swap::settled;
use crate::swap::swap_err;
use crate::swap::swap_handler;
use crate::swap::Swap;
use crate::swap::SwapEvent;

verus! {

/// Create the pool for an ordered asset pair; see
/// `initialize_pool::handler`, which this entry point delegates to.
pub fn initialize_pool(registry: &mut PoolRegistry, accounts: &InitializePool, program_id: &Vec<u8>) -> (r:
    Result<Pool, MockDefiError>)
    requires
        accounts.wf(),
        program_id@.len() == ADDRESS_LEN,
    ensures
        r matches Ok(pool) ==> ({
            &&& created_pool_ok(pool, *accounts, program_id@)
            &&& !has_pair(old(registry)@, accounts.mint_a@, accounts.mint_b@)
            &&& final(registry)@ == old(registry)@.push(pool.state@)
        }),
        r == Err::<Pool, MockDefiError>(MockDefiError::DuplicatePool) <==> has_pair(
            old(registry)@,
            accounts.mint_a@,
            accounts.mint_b@,
        ),
        r == Err::<Pool, MockDefiError>(MockDefiError::AllocationFailed) ==> ({
            &&& !has_pair(old(registry)@, accounts.mint_a@, accounts.mint_b@)
            &&& allocation_failed(accounts.mint_a@, accounts.mint_b@, program_id@)
        }),
        r is Err ==> ({
            &&& (r == Err::<Pool, MockDefiError>(MockDefiError::DuplicatePool) || r == Err::<
                Pool,
                MockDefiError,
            >(MockDefiError::AllocationFailed))
            &&& final(registry)@ == old(registry)@
        }),
{
    handler(registry, accounts, program_id)
}

/// Swap the first asset of the pair for the second: `swap_handler` with
/// direction 1. The caller supplies accounts where the source asset is the
/// pool's first asset.
pub fn swap_a_for_b(ctx: &mut Swap, amount_in: u64, program_id: &Vec<u8>) -> (r: Result<
    SwapEvent,
    MockDefiError,
>)
    requires
        old(ctx).wf(),
        program_id@.len() == ADDRESS_LEN,
        old(ctx).vault_source.amount + amount_in <= u64::MAX,
        old(ctx).user_destination.amount + amount_in <= u64::MAX,
    ensures
        swap_err(old(ctx)@, amount_in, program_id@) matches Some(e) ==> ({
            &&& r == Err::<SwapEvent, MockDefiError>(e)
            &&& final(ctx)@ == old(ctx)@
        }),
        swap_err(old(ctx)@, amount_in, program_id@) is None ==> ({
            &&& final(ctx)@ == settled(old(ctx)@, amount_in)
            &&& r is Ok
            &&& (r matches Ok(ev) ==> ({
                &&& ev.user@ == old(ctx).user@
                &&& ev.direction == 1
                &&& ev.amount_in == amount_in
                &&& ev.amount_out == amount_in
            }))
        }),
{
    swap_handler(ctx, amount_in, 1, program_id)
}

/// Swap the second asset of the pair for the first: `swap_handler` with
/// direction 2. The caller supplies accounts where the source asset is the
/// pool's second asset.
pub fn swap_b_for_a(ctx: &mut Swap, amount_in: u64, program_id: &Vec<u8>) -> (r: Result<
    SwapEvent,
    MockDefiError,
>)
    requires
        old(ctx).wf(),
        program_id@.len() == ADDRESS_LEN,
        old(ctx).vault_source.amount + amount_in <= u64::MAX,
        old(ctx).user_destination.amount + amount_in <= u64::MAX,
    ensures
        swap_err(old(ctx)@, amount_in, program_id@) matches Some(e) ==> ({
            &&& r == Err::<SwapEvent, MockDefiError>(e)
            &&& final(ctx)@ == old(ctx)@
        }),
        swap_err(old(ctx)@, amount_in, program_id@) is None ==> ({
            &&& final(ctx)@ == settled(old(ctx)@, amount_in)
            &&& r is Ok
            &&& (r matches Ok(ev) ==> ({
                &&& ev.user@ == old(ctx).user@
                &&& ev.direction == 2
                &&& ev.amount_in == amount_in
                &&& ev.amount_out == amount_in
            }))
        }),
{
    swap_handler(ctx, amount_in, 2, program_id)
}

} // verus!
