//! The swap engine: validate a parity-swap request against the pool record
//! and the reserve balances, settle the two transfer legs atomically, and
//! emit a settlement record.

use vstd::prelude::*;

use crate::derivation::authority_address_at;
use crate::derivation::copy_bytes;
use crate::derivation::pool_address_at;
use crate::derivation::rederive_pool_address;
use crate::derivation::verify_pool_authority;
use crate::derivation::ADDRESS_LEN;
use crate::error::MockDefiError;
use crate::state::PoolState;
use crate::state::PoolStateView;
use crate::token::credited;
use crate::token::debited;
use crate::token::transfer;
use crate::token::transfer_err;
use crate::token::TokenAccount;
use crate::token::TokenAccountView;

verus! {

/// The settlement record emitted after a successful swap: a receipt for
/// external observers, not persisted by the engine.
pub struct SwapEvent {
    /// The requesting identity.
    pub user: Vec<u8>,
    /// The caller-supplied direction flag: 1 for the first asset flowing in,
    /// 2 for the second.
    pub direction: u8,
    /// Amount collected from the user's source account.
    pub amount_in: u64,
    /// Amount disbursed to the user's destination account; equals `amount_in`
    /// under the parity policy.
    pub amount_out: u64,
}

/// A swap request: the requesting identity, the pool record, the claimed
/// authority account, and the four concrete accounts the caller asserts to
/// correspond to the requested direction.
pub struct Swap {
    /// The requesting identity.
    pub user: Vec<u8>,
    /// The pool's durable record; read, never changed.
    pub pool_state: PoolState,
    /// The authority account the caller presents; checked against the
    /// re-derived pool authority before any funds move.
    pub pool_authority: Vec<u8>,
    /// User-held account the input asset is collected from.
    pub user_source: TokenAccount,
    /// User-held account the output asset is disbursed to.
    pub user_destination: TokenAccount,
    /// Pool reserve the input asset is collected into.
    pub vault_source: TokenAccount,
    /// Pool reserve the output asset is disbursed from.
    pub vault_destination: TokenAccount,
    /// Identifier of the asset flowing in.
    pub source_mint: Vec<u8>,
    /// Identifier of the asset flowing out.
    pub destination_mint: Vec<u8>,
}

/// Mathematical value of a swap request.
#[verifier::ext_equal]
pub ghost struct SwapView {
    pub user: Seq<u8>,
    pub pool_state: PoolStateView,
    pub pool_authority: Seq<u8>,
    pub user_source: TokenAccountView,
    pub user_destination: TokenAccountView,
    pub vault_source: TokenAccountView,
    pub vault_destination: TokenAccountView,
    pub source_mint: Seq<u8>,
    pub destination_mint: Seq<u8>,
}

impl View for Swap {
    type V = SwapView;

    open spec fn view(&self) -> SwapView {
        SwapView {
            user: self.user@,
            pool_state: self.pool_state@,
            pool_authority: self.pool_authority@,
            user_source: self.user_source@,
            user_destination: self.user_destination@,
            vault_source: self.vault_source@,
            vault_destination: self.vault_destination@,
            source_mint: self.source_mint@,
            destination_mint: self.destination_mint@,
        }
    }
}

impl Swap {
    /// Every identity has the fixed address length.
    pub open spec fn wf(self) -> bool {
        &&& self.user@.len() == ADDRESS_LEN
        &&& self.pool_state.wf()
        &&& self.pool_authority@.len() == ADDRESS_LEN
        &&& self.source_mint@.len() == ADDRESS_LEN
        &&& self.destination_mint@.len() == ADDRESS_LEN
    }
}

/// Whether the claimed authority account is exactly the pool authority that
/// the stored bumps re-derive: first the pool record's own address from the
/// asset pair and its bump, then the authority from that address and the
/// authority bump.
pub open spec fn authority_ok(s: SwapView, program_id: Seq<u8>) -> bool {
    match pool_address_at(s.pool_state.mint_a, s.pool_state.mint_b, s.pool_state.bump, program_id) {
        Some(pool_address) => authority_address_at(
            pool_address,
            s.pool_state.authority_bump,
            program_id,
        ) == Some(s.pool_authority),
        None => false,
    }
}

/// Why a swap request would be rejected, or `None` when it settles: the
/// amount check, the liquidity check, the authority re-derivation, then the
/// two transfer legs in order.
pub open spec fn swap_err(s: SwapView, amount_in: u64, program_id: Seq<u8>) -> Option<MockDefiError> {
    if amount_in == 0 {
        Some(MockDefiError::InvalidAmount)
    } else if s.vault_destination.amount < amount_in {
        Some(MockDefiError::InsufficientLiquidity)
    } else if !authority_ok(s, program_id) {
        Some(MockDefiError::AuthorityMismatch)
    } else if transfer_err(s.user_source, s.vault_source, s.source_mint, amount_in) is Some {
        Some(MockDefiError::Transfer(transfer_err(s.user_source, s.vault_source, s.source_mint, amount_in).unwrap()))
    } else if transfer_err(s.vault_destination, s.user_destination, s.destination_mint, amount_in) is Some {
        Some(MockDefiError::Transfer(transfer_err(s.vault_destination, s.user_destination, s.destination_mint, amount_in).unwrap()))
    } else {
        None
    }
}

/// The request after settlement: `amount_in` moved from the user's source
/// account into the source-side reserve, and the same amount moved from the
/// destination-side reserve to the user's destination account. Everything
/// else is untouched.
pub open spec fn settled(s: SwapView, amount_in: u64) -> SwapView {
    SwapView {
        user_source: debited(s.user_source, amount_in),
        vault_source: credited(s.vault_source, amount_in),
        vault_destination: debited(s.vault_destination, amount_in),
        user_destination: credited(s.user_destination, amount_in),
        ..s
    }
}

/// Exchange `amount_in` of the source asset for the same amount of the
/// destination asset. On any rejection the four balances are exactly as
/// before the call: a failing second leg unwinds the first leg before the
/// error surfaces.
pub fn swap_handler(ctx: &mut Swap, amount_in: u64, direction: u8, program_id: &Vec<u8>) -> (r: Result<
    SwapEvent,
    MockDefiError,
>)
    requires
        old(ctx).wf(),
        program_id@.len() == ADDRESS_LEN,
        old(ctx).vault_source.amount + amount_in <= u64::MAX,
        old(ctx).user_destination.amount + amount_in <= u64::MAX,
    ensures
        amount_in == 0 ==> r == Err::<SwapEvent, MockDefiError>(MockDefiError::InvalidAmount),
        amount_in >= 1 && old(ctx).vault_destination.amount < amount_in ==> r == Err::<
            SwapEvent,
            MockDefiError,
        >(MockDefiError::InsufficientLiquidity),
        amount_in >= 1 && old(ctx).vault_destination.amount >= amount_in && !authority_ok(
            old(ctx)@,
            program_id@,
        ) ==> r == Err::<SwapEvent, MockDefiError>(MockDefiError::AuthorityMismatch),
        swap_err(old(ctx)@, amount_in, program_id@) matches Some(e) ==> ({
            &&& r == Err::<SwapEvent, MockDefiError>(e)
            &&& final(ctx)@ == old(ctx)@
        }),
        swap_err(old(ctx)@, amount_in, program_id@) is None ==> ({
            &&& final(ctx)@ == settled(old(ctx)@, amount_in)
            &&& r is Ok
            &&& (r matches Ok(ev) ==> ({
                &&& ev.user@ == old(ctx).user@
                &&& ev.direction == direction
                &&& ev.amount_in == amount_in
                &&& ev.amount_out == amount_in
            }))
        }),
{
    if amount_in == 0 {
        return Err(MockDefiError::InvalidAmount);
    }
    if ctx.vault_destination.amount < amount_in {
        return Err(MockDefiError::InsufficientLiquidity);
    }
    let pool_address = match rederive_pool_address(
        &ctx.pool_state.mint_a,
        &ctx.pool_state.mint_b,
        ctx.pool_state.bump,
        program_id,
    ) {
        Some(address) => address,
        None => {
            return Err(MockDefiError::AuthorityMismatch);
        },
    };
    let authority_matches = verify_pool_authority(
        &pool_address,
        ctx.pool_state.authority_bump,
        &ctx.pool_authority,
        program_id,
    );
    if !authority_matches {
        return Err(MockDefiError::AuthorityMismatch);
    }
    match transfer(&mut ctx.user_source, &mut ctx.vault_source, &ctx.source_mint, amount_in) {
        Ok(()) => (),
        Err(e) => {
            return Err(MockDefiError::Transfer(e));
        },
    }
    match transfer(
        &mut ctx.vault_destination,
        &mut ctx.user_destination,
        &ctx.destination_mint,
        amount_in,
    ) {
        Ok(()) => (),
        Err(e) => {
            // The second leg failed after the first settled: unwind the first
            // leg so the whole swap leaves every balance as it was.
            let unwind = transfer(
                &mut ctx.vault_source,
                &mut ctx.user_source,
                &ctx.source_mint,
                amount_in,
            );
            proof {
                assert(unwind is Ok);
                assert(ctx@ =~= old(ctx)@);
            }
            return Err(MockDefiError::Transfer(e));
        },
    }
    proof {
        assert(ctx@ =~= settled(old(ctx)@, amount_in));
    }
    Ok(SwapEvent {
        user: copy_bytes(&ctx.user),
        direction,
        amount_in,
        amount_out: amount_in,
    })
}

/// The same request with the roles exchanged for the return swap: the user's
/// destination account becomes the source, the destination-side reserve
/// becomes the source-side reserve, and the two asset identifiers trade
/// places. Pool record, authority and requester stay as they are.
pub open spec fn reversed(s: SwapView) -> SwapView {
    SwapView {
        user_source: s.user_destination,
        user_destination: s.user_source,
        vault_source: s.vault_destination,
        vault_destination: s.vault_source,
        source_mint: s.destination_mint,
        destination_mint: s.source_mint,
        ..s
    }
}

/// Conservation law: a settled swap disburses exactly what it collects, and
/// per asset the combined user-plus-reserve balance is unchanged — the user's
/// source account goes down by `amount_in`, the source-side reserve up by the
/// same amount, the destination-side reserve down by it, and the user's
/// destination account up by it.
pub proof fn lemma_swap_conservation(s: SwapView, amount_in: u64, program_id: Seq<u8>)
    requires
        swap_err(s, amount_in, program_id) is None,
        s.vault_source.amount + amount_in <= u64::MAX,
        s.user_destination.amount + amount_in <= u64::MAX,
    ensures
        settled(s, amount_in).user_source.amount == s.user_source.amount - amount_in,
        settled(s, amount_in).vault_source.amount == s.vault_source.amount + amount_in,
        settled(s, amount_in).vault_destination.amount == s.vault_destination.amount - amount_in,
        settled(s, amount_in).user_destination.amount == s.user_destination.amount + amount_in,
        settled(s, amount_in).user_source.amount + settled(s, amount_in).vault_source.amount == s.user_source.amount
            + s.vault_source.amount,
        settled(s, amount_in).vault_destination.amount + settled(s, amount_in).user_destination.amount
            == s.vault_destination.amount + s.user_destination.amount,
{
}

/// Round-trip law: after a swap settles, the reverse swap of the same amount
/// — the same request with `reversed` roles — is itself accepted, and
/// settling it restores all four balances to their values before the first
/// swap, with nothing else changed.
pub proof fn lemma_swap_round_trip(s: SwapView, amount_in: u64, program_id: Seq<u8>)
    requires
        swap_err(s, amount_in, program_id) is None,
        s.vault_source.amount + amount_in <= u64::MAX,
        s.user_destination.amount + amount_in <= u64::MAX,
    ensures
        swap_err(reversed(settled(s, amount_in)), amount_in, program_id) is None,
        settled(reversed(settled(s, amount_in)), amount_in) == reversed(s),
        reversed(reversed(s)) == s,
{
    assert(settled(reversed(settled(s, amount_in)), amount_in) =~= reversed(s));
    assert(reversed(reversed(s)) =~= s);
}

} // verus!
