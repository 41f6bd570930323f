//! Deterministic, keyless derivation of the pool's own address and of the
//! pool authority.
//!
//! An address here is 32 bytes. A derived address is computed by the address
//! service from a list of seed byte strings, a one-byte bump, and the program
//! id; whoever can re-supply the same seeds and bump can prove control of the
//! address without any private key existing. Only the bump is ever stored;
//! the address is re-derived and checked on every use.

use vstd::prelude::*;

use anchor_lang::prelude::Pubkey;

verus! {

/// Number of bytes in an address (and in an asset identifier).
pub const ADDRESS_LEN: usize = 32;

/// Longest seed the address service accepts.
pub const MAX_SEED_LEN: usize = 32;

/// Most seeds, the bump included, the address service accepts.
pub const MAX_SEEDS: usize = 16;

/// What `Pubkey::create_program_address` returns for given seeds and program
/// id: `Some` 32-byte address, or `None` when the candidate falls on the
/// ed25519 curve and is therefore rejected. The result is a SHA-256-based
/// function of the arguments alone.
pub uninterp spec fn pda_result(seeds: Seq<Seq<u8>>, program_id: Seq<u8>) -> Option<Seq<u8>>;

/// The byte strings of a seed list.
pub open spec fn seed_views(seeds: Seq<Vec<u8>>) -> Seq<Seq<u8>> {
    seeds.map_values(|s: Vec<u8>| s@)
}

/// A seed list extended with a one-byte bump seed.
pub open spec fn with_bump(seeds: Seq<Seq<u8>>, bump: u8) -> Seq<Seq<u8>> {
    seeds.push(seq![bump])
}

/// The tag `"pool_state"` in ASCII, keying the pool record's address.
pub open spec fn pool_state_tag() -> Seq<u8> {
    seq![112u8, 111u8, 111u8, 108u8, 95u8, 115u8, 116u8, 97u8, 116u8, 101u8]
}

/// The tag `"pool_authority"` in ASCII, keying the pool authority's address.
pub open spec fn pool_authority_tag() -> Seq<u8> {
    seq![112u8, 111u8, 111u8, 108u8, 95u8, 97u8, 117u8, 116u8, 104u8, 111u8, 114u8, 105u8, 116u8, 121u8]
}

/// Seed list of the pool record's address: tag, then the two asset ids in
/// creation order.
pub open spec fn pool_state_seed_views(mint_a: Seq<u8>, mint_b: Seq<u8>) -> Seq<Seq<u8>> {
    seq![pool_state_tag(), mint_a, mint_b]
}

/// Seed list of the pool authority's address: tag, then the pool record's own
/// address.
pub open spec fn pool_authority_seed_views(pool_address: Seq<u8>) -> Seq<Seq<u8>> {
    seq![pool_authority_tag(), pool_address]
}

/// The pool record's address derived with a given bump, if that bump is valid.
pub open spec fn pool_address_at(mint_a: Seq<u8>, mint_b: Seq<u8>, bump: u8, program_id: Seq<u8>) -> Option<Seq<u8>> {
    pda_result(with_bump(pool_state_seed_views(mint_a, mint_b), bump), program_id)
}

/// The pool authority's address derived with a given bump, if that bump is
/// valid.
pub open spec fn authority_address_at(pool_address: Seq<u8>, bump: u8, program_id: Seq<u8>) -> Option<Seq<u8>> {
    pda_result(with_bump(pool_authority_seed_views(pool_address), bump), program_id)
}

/// Relies on `Pubkey::create_program_address` (solana-address): hashes the
/// seeds and program id with SHA-256 and returns the address, or
/// `Err(InvalidSeeds)` when the hash lies on the ed25519 curve. The result
/// depends on the seeds and program id alone; `pda_result` names it.
#[verifier::external_body]
pub(crate) fn create_program_address(seeds: &Vec<Vec<u8>>, program_id: &Vec<u8>) -> (r: Option<Vec<u8>>)
    requires
        program_id@.len() == ADDRESS_LEN,
        seeds@.len() <= MAX_SEEDS,
        forall|i: int| 0 <= i < seeds@.len() ==> (#[trigger] seeds@[i])@.len() <= MAX_SEED_LEN,
    ensures
        r is Some <==> pda_result(seed_views(seeds@), program_id@) is Some,
        r matches Some(a) ==> Some(a@) == pda_result(seed_views(seeds@), program_id@),
        r matches Some(a) ==> a@.len() == ADDRESS_LEN,
{
    let refs: Vec<&[u8]> = seeds.iter().map(|s| s.as_slice()).collect();
    let pid = Pubkey::new_from_array(program_id.as_slice().try_into().unwrap());
    match Pubkey::create_program_address(&refs, &pid) {
        Ok(address) => Some(address.to_bytes().to_vec()),
        Err(_) => None,
    }
}

/// Relies on `Pubkey::try_find_program_address` (solana-address): tries bump
/// values from 255 down to 1 and returns the first whose derivation is
/// accepted by `create_program_address`, together with that bump; `None` when
/// every bump is rejected. Bump 0 is never tried.
#[verifier::external_body]
pub(crate) fn try_find_program_address(seeds: &Vec<Vec<u8>>, program_id: &Vec<u8>) -> (r: Option<(Vec<u8>, u8)>)
    requires
        program_id@.len() == ADDRESS_LEN,
        seeds@.len() < MAX_SEEDS,
        forall|i: int| 0 <= i < seeds@.len() ==> (#[trigger] seeds@[i])@.len() <= MAX_SEED_LEN,
    ensures
        r matches Some(p) ==> ({
            &&& p.1 >= 1
            &&& pda_result(with_bump(seed_views(seeds@), p.1), program_id@) == Some(p.0@)
            &&& p.0@.len() == ADDRESS_LEN
            &&& forall|b: u8| b > p.1 ==> #[trigger] pda_result(with_bump(seed_views(seeds@), b), program_id@) is None
        }),
        r is None ==> forall|b: u8| b >= 1 ==> #[trigger] pda_result(with_bump(seed_views(seeds@), b), program_id@) is None,
{
    let refs: Vec<&[u8]> = seeds.iter().map(|s| s.as_slice()).collect();
    let pid = Pubkey::new_from_array(program_id.as_slice().try_into().unwrap());
    match Pubkey::try_find_program_address(&refs, &pid) {
        Some((address, bump)) => Some((address.to_bytes().to_vec(), bump)),
        None => None,
    }
}

/// Byte-for-byte copy of a byte string.
pub fn copy_bytes(v: &Vec<u8>) -> (r: Vec<u8>)
    ensures
        r@ == v@,
{
    let mut r: Vec<u8> = Vec::new();
    let mut i: usize = 0;
    while i < v.len()
        invariant
            i <= v.len(),
            r@ == v@.subrange(0, i as int),
        decreases v.len() - i,
    {
        r.push(v[i]);
        i = i + 1;
    }
    proof {
        assert(r@ =~= v@);
    }
    r
}

/// Whether two byte strings hold the same bytes.
pub fn bytes_eq(a: &Vec<u8>, b: &Vec<u8>) -> (r: bool)
    ensures
        r == (a@ == b@),
{
    if a.len() != b.len() {
        proof {
            assert(a@ != b@);
        }
        return false;
    }
    let mut i: usize = 0;
    while i < a.len()
        invariant
            i <= a.len(),
            a@.len() == b@.len(),
            forall|j: int| 0 <= j < i ==> a@[j] == b@[j],
        decreases a.len() - i,
    {
        if a[i] != b[i] {
            return false;
        }
        i = i + 1;
    }
    proof {
        assert(a@ =~= b@);
    }
    true
}

/// The tag `"pool_state"` as bytes.
pub fn pool_state_tag_vec() -> (r: Vec<u8>)
    ensures
        r@ == pool_state_tag(),
{
    let mut v: Vec<u8> = Vec::new();
    v.push(112);
    v.push(111);
    v.push(111);
    v.push(108);
    v.push(95);
    v.push(115);
    v.push(116);
    v.push(97);
    v.push(116);
    v.push(101);
    proof {
        assert(v@ =~= pool_state_tag());
    }
    v
}

/// The tag `"pool_authority"` as bytes.
pub fn pool_authority_tag_vec() -> (r: Vec<u8>)
    ensures
        r@ == pool_authority_tag(),
{
    let mut v: Vec<u8> = Vec::new();
    v.push(112);
    v.push(111);
    v.push(111);
    v.push(108);
    v.push(95);
    v.push(97);
    v.push(117);
    v.push(116);
    v.push(104);
    v.push(111);
    v.push(114);
    v.push(105);
    v.push(116);
    v.push(121);
    proof {
        assert(v@ =~= pool_authority_tag());
    }
    v
}

/// The seed list of the pool record's address, as bytes.
fn pool_state_seeds(mint_a: &Vec<u8>, mint_b: &Vec<u8>) -> (r: Vec<Vec<u8>>)
    ensures
        seed_views(r@) == pool_state_seed_views(mint_a@, mint_b@),
        r@.len() == 3,
        (r@[0])@.len() == pool_state_tag().len(),
        (r@[1])@ == mint_a@,
        (r@[2])@ == mint_b@,
{
    let mut s: Vec<Vec<u8>> = Vec::new();
    s.push(pool_state_tag_vec());
    s.push(copy_bytes(mint_a));
    s.push(copy_bytes(mint_b));
    proof {
        assert(seed_views(s@) =~= pool_state_seed_views(mint_a@, mint_b@));
    }
    s
}

/// The seed list of the pool authority's address, as bytes.
fn pool_authority_seeds(pool_address: &Vec<u8>) -> (r: Vec<Vec<u8>>)
    ensures
        seed_views(r@) == pool_authority_seed_views(pool_address@),
        r@.len() == 2,
        (r@[0])@.len() == pool_authority_tag().len(),
        (r@[1])@ == pool_address@,
{
    let mut s: Vec<Vec<u8>> = Vec::new();
    s.push(pool_authority_tag_vec());
    s.push(copy_bytes(pool_address));
    proof {
        assert(seed_views(s@) =~= pool_authority_seed_views(pool_address@));
    }
    s
}

/// A seed list extended with the one-byte bump, as bytes.
fn push_bump(seeds: Vec<Vec<u8>>, bump: u8) -> (r: Vec<Vec<u8>>)
    ensures
        seed_views(r@) == with_bump(seed_views(seeds@), bump),
        r@.len() == seeds@.len() + 1,
        forall|i: int| 0 <= i < seeds@.len() ==> r@[i] == seeds@[i],
        (r@[seeds@.len() as int])@.len() == 1,
{
    let mut s = seeds;
    let mut bump_seed: Vec<u8> = Vec::new();
    bump_seed.push(bump);
    proof {
        assert(bump_seed@ =~= seq![bump]);
    }
    s.push(bump_seed);
    proof {
        assert(seed_views(s@) =~= with_bump(seed_views(seeds@), bump));
    }
    s
}

/// Search the bump space for the pool record's address for an ordered asset
/// pair: the address and bump of the first valid derivation, from the top of
/// the bump space downward, or `None` when the space is exhausted.
pub fn derive_pool_address(mint_a: &Vec<u8>, mint_b: &Vec<u8>, program_id: &Vec<u8>) -> (r: Option<(Vec<u8>, u8)>)
    requires
        mint_a@.len() == ADDRESS_LEN,
        mint_b@.len() == ADDRESS_LEN,
        program_id@.len() == ADDRESS_LEN,
    ensures
        r matches Some(p) ==> ({
            &&& p.1 >= 1
            &&& pool_address_at(mint_a@, mint_b@, p.1, program_id@) == Some(p.0@)
            &&& p.0@.len() == ADDRESS_LEN
            &&& forall|b: u8| b > p.1 ==> #[trigger] pool_address_at(mint_a@, mint_b@, b, program_id@) is None
        }),
        r is None ==> forall|b: u8| b >= 1 ==> #[trigger] pool_address_at(mint_a@, mint_b@, b, program_id@) is None,
{
    let seeds = pool_state_seeds(mint_a, mint_b);
    try_find_program_address(&seeds, program_id)
}

/// Search the bump space for the pool authority's address for a pool record's
/// address, as `derive_pool_address` does for the record itself.
pub fn derive_pool_authority(pool_address: &Vec<u8>, program_id: &Vec<u8>) -> (r: Option<(Vec<u8>, u8)>)
    requires
        pool_address@.len() == ADDRESS_LEN,
        program_id@.len() == ADDRESS_LEN,
    ensures
        r matches Some(p) ==> ({
            &&& p.1 >= 1
            &&& authority_address_at(pool_address@, p.1, program_id@) == Some(p.0@)
            &&& p.0@.len() == ADDRESS_LEN
            &&& forall|b: u8| b > p.1 ==> #[trigger] authority_address_at(pool_address@, b, program_id@) is None
        }),
        r is None ==> forall|b: u8| b >= 1 ==> #[trigger] authority_address_at(pool_address@, b, program_id@) is None,
{
    let seeds = pool_authority_seeds(pool_address);
    try_find_program_address(&seeds, program_id)
}

/// Re-derive the pool record's address from the asset pair and a stored bump.
pub fn rederive_pool_address(mint_a: &Vec<u8>, mint_b: &Vec<u8>, bump: u8, program_id: &Vec<u8>) -> (r: Option<Vec<u8>>)
    requires
        mint_a@.len() == ADDRESS_LEN,
        mint_b@.len() == ADDRESS_LEN,
        program_id@.len() == ADDRESS_LEN,
    ensures
        r is Some <==> pool_address_at(mint_a@, mint_b@, bump, program_id@) is Some,
        r matches Some(a) ==> Some(a@) == pool_address_at(mint_a@, mint_b@, bump, program_id@),
        r matches Some(a) ==> a@.len() == ADDRESS_LEN,
{
    let seeds = push_bump(pool_state_seeds(mint_a, mint_b), bump);
    create_program_address(&seeds, program_id)
}

/// Re-derive the pool authority's address from the pool record's address and
/// a stored bump.
pub fn rederive_pool_authority(pool_address: &Vec<u8>, bump: u8, program_id: &Vec<u8>) -> (r: Option<Vec<u8>>)
    requires
        pool_address@.len() == ADDRESS_LEN,
        program_id@.len() == ADDRESS_LEN,
    ensures
        r is Some <==> authority_address_at(pool_address@, bump, program_id@) is Some,
        r matches Some(a) ==> Some(a@) == authority_address_at(pool_address@, bump, program_id@),
        r matches Some(a) ==> a@.len() == ADDRESS_LEN,
{
    let seeds = push_bump(pool_authority_seeds(pool_address), bump);
    create_program_address(&seeds, program_id)
}

/// Whether a claimed address is exactly the pool authority that the stored
/// bump re-derives for this pool record's address: the keyless capability
/// check behind every swap.
pub fn verify_pool_authority(pool_address: &Vec<u8>, bump: u8, claimed: &Vec<u8>, program_id: &Vec<u8>) -> (r: bool)
    requires
        pool_address@.len() == ADDRESS_LEN,
        program_id@.len() == ADDRESS_LEN,
    ensures
        r == (authority_address_at(pool_address@, bump, program_id@) == Some(claimed@)),
{
    match rederive_pool_authority(pool_address, bump, program_id) {
        Some(derived) => bytes_eq(&derived, claimed),
        None => false,
    }
}

} // verus!
