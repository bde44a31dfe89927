use vstd::prelude::*;

use crate::ID;

verus! {

broadcast use vstd::array::group_array_axioms;

/// The bytes of the seed `"fundraiser"`.
pub open spec fn fundraiser_seed() -> Seq<u8> {
    seq![102u8, 117, 110, 100, 114, 97, 105, 115, 101, 114]
}

/// The bytes of the seed `"contributor"`.
pub open spec fn contributor_seed() -> Seq<u8> {
    seq![99u8, 111, 110, 116, 114, 105, 98, 117, 116, 111, 114]
}

/// The seeds of the fundraiser account of `maker`: `"fundraiser"`, the
/// maker's address and the bump.
pub open spec fn fundraiser_seeds(maker: Seq<u8>, bump: u8) -> Seq<Seq<u8>> {
    seq![fundraiser_seed(), maker, seq![bump]]
}

/// The seeds of the record of `contributor` in `fundraiser`: `"contributor"`,
/// the fundraiser's address, the contributor's address and the bump.
pub open spec fn contributor_seeds(fundraiser: Seq<u8>, contributor: Seq<u8>, bump: u8) -> Seq<
    Seq<u8>,
> {
    seq![contributor_seed(), fundraiser, contributor, seq![bump]]
}

/// The seeds held in `v`, each as its bytes.
pub open spec fn seeds_view(v: Seq<Vec<u8>>) -> Seq<Seq<u8>> {
    v.map_values(|s: Vec<u8>| s@)
}

/// The program address that `derive_address` of pinocchio-pubkey computes
/// from `seeds`, an optional bump and `program_id`: the SHA-256 hash of the
/// seeds, the bump, the program id and the program-address marker.
pub uninterp spec fn derived_address(seeds: Seq<Seq<u8>>, bump: Option<u8>, program_id: Seq<u8>) -> Seq<u8>;

/// Calls `pinocchio_pubkey::derive_address_const` on three seeds. It hashes
/// the same bytes as `pinocchio_pubkey::derive_address`, which computes the
/// hash by a syscall of the runtime and is unreachable off it. Claimed: the
/// result is `derived_address` of the seeds, the bump and the program id.
#[verifier::external_body]
fn derive_address(
    seed0: &[u8],
    seed1: &[u8],
    seed2: &[u8],
    bump: Option<u8>,
    program_id: &[u8; 32],
) -> (r: [u8; 32])
    ensures
        r@ == derived_address(seq![seed0@, seed1@, seed2@], bump, program_id@),
{
    pinocchio_pubkey::derive_address_const(&[seed0, seed1, seed2], bump, program_id)
}

/// The bytes `"fundraiser"`.
pub fn fundraiser_seed_bytes() -> (r: Vec<u8>)
    ensures
        r@ == fundraiser_seed(),
{
    let r = vec![102u8, 117, 110, 100, 114, 97, 105, 115, 101, 114];
    assert(r@ == fundraiser_seed());
    r
}

/// The bytes `"contributor"`.
pub fn contributor_seed_bytes() -> (r: Vec<u8>)
    ensures
        r@ == contributor_seed(),
{
    let r = vec![99u8, 111, 110, 116, 114, 105, 98, 117, 116, 111, 114];
    assert(r@ == contributor_seed());
    r
}

/// Copies a slice into a vector.
pub fn bytes_to_vec(s: &[u8]) -> (r: Vec<u8>)
    ensures
        r@ == s@,
{
    let mut r: Vec<u8> = Vec::new();
    let mut i: usize = 0;
    while i < s.len()
        invariant
            i <= s@.len(),
            r@ == s@.subrange(0, i as int),
        decreases s@.len() - i,
    {
        r.push(s[i]);
        i = i + 1;
        assert(r@ == s@.subrange(0, i as int));
    }
    assert(s@.subrange(0, s@.len() as int) == s@);
    r
}

/// The seeds with which the fundraiser account of `maker` signs.
pub fn fundraiser_signer_seeds(maker: &[u8; 32], bump: u8) -> (r: Vec<Vec<u8>>)
    ensures
        seeds_view(r@) == fundraiser_seeds(maker@, bump),
        r@.len() == 3,
        r@[0]@ == seq![102u8, 117, 110, 100, 114, 97, 105, 115, 101, 114],
        r@[1]@ == maker@,
        r@[2]@ == seq![bump],
{
    let mut r: Vec<Vec<u8>> = Vec::new();
    r.push(fundraiser_seed_bytes());
    r.push(bytes_to_vec(maker.as_slice()));
    let b = vec![bump];
    assert(b@ =~= seq![bump]);
    r.push(b);
    assert(seeds_view(r@) =~= fundraiser_seeds(maker@, bump));
    assert(r@[0]@ == fundraiser_seed());
    r
}

/// The seeds with which the record of `contributor` in `fundraiser` signs.
pub fn contributor_signer_seeds(fundraiser: &[u8; 32], contributor: &[u8; 32], bump: u8) -> (r: Vec<
    Vec<u8>,
>)
    ensures
        seeds_view(r@) == contributor_seeds(fundraiser@, contributor@, bump),
        r@.len() == 4,
        r@[0]@ == seq![99u8, 111, 110, 116, 114, 105, 98, 117, 116, 111, 114],
        r@[1]@ == fundraiser@,
        r@[2]@ == contributor@,
        r@[3]@ == seq![bump],
{
    let mut r: Vec<Vec<u8>> = Vec::new();
    r.push(contributor_seed_bytes());
    r.push(bytes_to_vec(fundraiser.as_slice()));
    r.push(bytes_to_vec(contributor.as_slice()));
    let b = vec![bump];
    assert(b@ =~= seq![bump]);
    r.push(b);
    assert(seeds_view(r@) =~= contributor_seeds(fundraiser@, contributor@, bump));
    assert(r@[0]@ == contributor_seed());
    r
}

/// The address of the fundraiser account of `maker` under this program, for
/// the given bump: the program address derived from `"fundraiser"`, the
/// maker's address and the bump, with no further bump.
pub fn fundraiser_address(maker: &[u8; 32], bump: u8) -> (r: [u8; 32])
    ensures
        r@ == derived_address(fundraiser_seeds(maker@, bump), None, ID@),
        r@ == derived_address(seq![seq![102u8, 117, 110, 100, 114, 97, 105, 115, 101, 114], maker@, seq![bump]], None, ID@),
{
    let seed = fundraiser_seed_bytes();
    let bump_seed = vec![bump];
    assert(bump_seed@ =~= seq![bump]);
    let program_id = ID;
    let r = derive_address(seed.as_slice(), maker.as_slice(), bump_seed.as_slice(), None, &program_id);
    assert(seq![seed@, maker@, bump_seed@] == fundraiser_seeds(maker@, bump));
    assert(seq![seed@, maker@, bump_seed@] =~= seq![seq![102u8, 117, 110, 100, 114, 97, 105, 115, 101, 114], maker@, seq![bump]]);
    r
}

/// The seeds of a fundraiser are, in order, the bytes of `"fundraiser"`,
/// the maker's address unchanged, and the one-byte bump as given: so two
/// makers or two bumps never share seeds.
pub proof fn lemma_fundraiser_seeds_spelled(maker: Seq<u8>, bump: u8, other: Seq<u8>, other_bump: u8)
    ensures
        fundraiser_seeds(maker, bump).len() == 3,
        fundraiser_seeds(maker, bump)[0] == seq![102u8, 117, 110, 100, 114, 97, 105, 115, 101, 114],
        fundraiser_seeds(maker, bump)[1] == maker,
        fundraiser_seeds(maker, bump)[2] == seq![bump],
        fundraiser_seeds(maker, bump) == fundraiser_seeds(other, other_bump) ==> maker == other
            && bump == other_bump,
{
    if fundraiser_seeds(maker, bump) == fundraiser_seeds(other, other_bump) {
        assert(fundraiser_seeds(maker, bump)[2][0] == bump);
        assert(fundraiser_seeds(other, other_bump)[2][0] == other_bump);
    }
}

/// The seeds of a contributor's record are, in order, the bytes of
/// `"contributor"`, the fundraiser's and the contributor's addresses
/// unchanged, and the one-byte bump as given: every one of the 256 bumps
/// gives seeds of its own.
pub proof fn lemma_contributor_seeds_spelled(
    fundraiser: Seq<u8>,
    contributor: Seq<u8>,
    bump: u8,
    other_bump: u8,
)
    ensures
        contributor_seeds(fundraiser, contributor, bump).len() == 4,
        contributor_seeds(fundraiser, contributor, bump)[0] == seq![99u8, 111, 110, 116, 114, 105, 98, 117, 116, 111, 114],
        contributor_seeds(fundraiser, contributor, bump)[1] == fundraiser,
        contributor_seeds(fundraiser, contributor, bump)[2] == contributor,
        contributor_seeds(fundraiser, contributor, bump)[3] == seq![bump],
        contributor_seeds(fundraiser, contributor, bump) == contributor_seeds(
            fundraiser,
            contributor,
            other_bump,
        ) ==> bump == other_bump,
{
    if contributor_seeds(fundraiser, contributor, bump) == contributor_seeds(
        fundraiser,
        contributor,
        other_bump,
    ) {
        assert(contributor_seeds(fundraiser, contributor, bump)[3][0] == bump);
        assert(contributor_seeds(fundraiser, contributor, other_bump)[3][0] == other_bump);
    }
}

} // verus!
