//! Addresses of accounts and programs, and the addresses derived from seeds.

use vstd::prelude::*;

verus! {

/// The address of an account or of a program: 32 bytes.
pub type Pubkey = [u8; 32];

/// The number of seeds from which no address is derived any more.
pub const MAX_SEEDS: usize = 16;

/// The greatest length of a single seed.
pub const MAX_SEED_LEN: usize = 32;

/// Whether two addresses are the same.
pub fn pubkey_eq(a: &Pubkey, b: &Pubkey) -> (same: bool)
    ensures
        same == (*a == *b),
{
    let mut i: usize = 0;
    while i < 32
        invariant
            i <= 32,
            forall|j: int| 0 <= j < i ==> a[j] == b[j],
        decreases 32 - i,
    {
        if a[i] != b[i] {
            return false;
        }
        i += 1;
    }
    assert(*a =~= *b);
    true
}

/// The address and bump seed that the runtime derives from `seeds` for the
/// program `program_id`, or `None` where it derives none. The derivation
/// hashes the seeds, a bump seed and the program's address, and keeps the
/// first result, counting the bump down from 255, that is no point of the
/// curve; it is a function of its arguments alone.
pub uninterp spec fn derived_address(seeds: Seq<Seq<u8>>, program_id: Seq<u8>) -> Option<
    (Seq<u8>, u8),
>;

/// Whether some seed is longer than an address derivation accepts.
pub open spec fn has_long_seed(seeds: Seq<Seq<u8>>) -> bool {
    exists|i: int| 0 <= i < seeds.len() && (#[trigger] seeds[i]).len() > MAX_SEED_LEN
}

/// Derives an address with `solana_program`'s
/// `Pubkey::try_find_program_address`. The result is the derivation named
/// above; as the function documents, there is none for `MAX_SEEDS` seeds or
/// more, nor where a seed is longer than `MAX_SEED_LEN`. Nothing else about
/// the derivation is assumed.
#[verifier::external_body]
fn try_find_program_address(seeds: &[&[u8]], program_id: &Pubkey) -> (found: Option<(Pubkey, u8)>)
    ensures
        found matches Some((address, bump)) ==> derived_address(seeds.deep_view(), program_id@)
            == Some((address@, bump)),
        found is None ==> derived_address(seeds.deep_view(), program_id@) is None,
        seeds.len() >= MAX_SEEDS || has_long_seed(seeds.deep_view()) ==> found is None,
{
    let program = solana_program::pubkey::Pubkey::new_from_array(*program_id);
    match solana_program::pubkey::Pubkey::try_find_program_address(seeds, &program) {
        Some((address, bump)) => Some((address.to_bytes(), bump)),
        None => None,
    }
}

/// Whether `found` is what the derivation gives for these seeds and this
/// program.
pub open spec fn is_derivation(
    found: Option<(Pubkey, u8)>,
    seeds: Seq<Seq<u8>>,
    program_id: Pubkey,
) -> bool {
    match found {
        Some((address, bump)) => derived_address(seeds, program_id@) == Some((address@, bump)),
        None => derived_address(seeds, program_id@) is None,
    }
}

/// The address derived from `seeds` for `program_id`, with its bump seed;
/// `None` where there is none, as for too many or too long seeds.
pub fn find_program_address(seeds: &[&[u8]], program_id: &Pubkey) -> (found: Option<(Pubkey, u8)>)
    ensures
        is_derivation(found, seeds.deep_view(), *program_id),
        seeds.len() >= MAX_SEEDS || has_long_seed(seeds.deep_view()) ==> found is None,
{
    try_find_program_address(seeds, program_id)
}

/// Derivation is a function: two results for the same seeds and program are
/// the same address and the same bump seed.
pub proof fn lemma_derivation_deterministic(
    seeds: Seq<Seq<u8>>,
    program_id: Pubkey,
    first: Option<(Pubkey, u8)>,
    second: Option<(Pubkey, u8)>,
)
    requires
        is_derivation(first, seeds, program_id),
        is_derivation(second, seeds, program_id),
    ensures
        first == second,
{
    if let Some((a, _)) = first {
        if let Some((b, _)) = second {
            assert(a@ == b@);
            assert(a =~= b);
        }
    }
}

} // verus!
