//! The durable pool record and the registry that owns one record per asset
//! pair.

use vstd::prelude::*;

use crate::derivation::bytes_eq;
use crate::derivation::copy_bytes;
use crate::derivation::ADDRESS_LEN;

verus! {

/// Serialized size of a pool record: a fixed header, the admin identity, the
/// two asset identifiers, and the two stored bumps.
pub const POOL_STATE_LEN: usize = 8 + 32 + 32 + 32 + 1 + 1;

/// The durable record of one trading pair. Written once at creation and
/// read-only afterwards; only the bumps are stored, never the derived
/// addresses.
pub struct PoolState {
    /// Identity of the account that created the pool; informational only.
    pub admin: Vec<u8>,
    /// First asset of the pair, in the order fixed at creation.
    pub mint_a: Vec<u8>,
    /// Second asset of the pair.
    pub mint_b: Vec<u8>,
    /// Bump that derives the pool record's own address.
    pub bump: u8,
    /// Bump that derives the pool authority's address.
    pub authority_bump: u8,
}

/// Mathematical value of a `PoolState`.
#[verifier::ext_equal]
pub ghost struct PoolStateView {
    pub admin: Seq<u8>,
    pub mint_a: Seq<u8>,
    pub mint_b: Seq<u8>,
    pub bump: u8,
    pub authority_bump: u8,
}

impl View for PoolState {
    type V = PoolStateView;

    open spec fn view(&self) -> PoolStateView {
        PoolStateView {
            admin: self.admin@,
            mint_a: self.mint_a@,
            mint_b: self.mint_b@,
            bump: self.bump,
            authority_bump: self.authority_bump,
        }
    }
}

impl PoolState {
    /// All three identities have the fixed address length.
    pub open spec fn wf(self) -> bool {
        self.admin@.len() == ADDRESS_LEN
            && self.mint_a@.len() == ADDRESS_LEN
            && self.mint_b@.len() == ADDRESS_LEN
    }

    /// A fresh record holding the same value.
    pub fn duplicate(&self) -> (r: PoolState)
        ensures
            r@ == self@,
    {
        PoolState {
            admin: copy_bytes(&self.admin),
            mint_a: copy_bytes(&self.mint_a),
            mint_b: copy_bytes(&self.mint_b),
            bump: self.bump,
            authority_bump: self.authority_bump,
        }
    }
}

/// Whether some record in `pools` is keyed by the ordered pair
/// (`mint_a`, `mint_b`).
pub open spec fn has_pair(pools: Seq<PoolStateView>, mint_a: Seq<u8>, mint_b: Seq<u8>) -> bool {
    exists|i: int|
        0 <= i < pools.len() && (#[trigger] pools[i]).mint_a == mint_a && pools[i].mint_b == mint_b
}

/// Owner of the durable pool records: exactly one per ordered asset pair.
pub struct PoolRegistry {
    pub pools: Vec<PoolState>,
}

impl View for PoolRegistry {
    type V = Seq<PoolStateView>;

    open spec fn view(&self) -> Seq<PoolStateView> {
        self.pools@.map_values(|p: PoolState| p@)
    }
}

impl PoolRegistry {
    /// A registry with no pools yet.
    pub fn new() -> (r: PoolRegistry)
        ensures
            r@.len() == 0,
    {
        PoolRegistry { pools: Vec::new() }
    }

    /// Whether a record for the ordered pair (`mint_a`, `mint_b`) exists.
    pub fn contains_pair(&self, mint_a: &Vec<u8>, mint_b: &Vec<u8>) -> (r: bool)
        ensures
            r == has_pair(self@, mint_a@, mint_b@),
    {
        let mut i: usize = 0;
        while i < self.pools.len()
            invariant
                i <= self.pools@.len(),
                self@.len() == self.pools@.len(),
                forall|j: int|
                    0 <= j < i ==> !((#[trigger] self@[j]).mint_a == mint_a@ && self@[j].mint_b == mint_b@),
            decreases self.pools@.len() - i,
        {
            let pool = &self.pools[i];
            let a_matches = bytes_eq(&pool.mint_a, mint_a);
            let b_matches = bytes_eq(&pool.mint_b, mint_b);
            if a_matches && b_matches {
                proof {
                    assert(self@[i as int].mint_a == mint_a@ && self@[i as int].mint_b == mint_b@);
                }
                return true;
            }
            i = i + 1;
        }
        false
    }
}

} // verus!
