use vstd::prelude::*;

verus! {

/// An account key or address: thirty-two bytes.
pub type Key = [u8; 32];

/// Length in bytes of an account key.
pub const KEY_LEN: usize = 32;

/// Most seeds that one derivation may use, bump included.
pub const MAX_SEEDS: usize = 16;

/// Most bytes that one seed may hold.
pub const MAX_SEED_LEN: usize = 32;

/// The address that the host derives from `seeds` under `program_id`, or `None` when
/// the hash of the seeds lies on the signing curve (such an address could have a
/// private key, so it is no valid derived address).
pub uninterp spec fn program_address(seeds: Seq<Seq<u8>>, program_id: Seq<u8>) -> Option<Seq<u8>>;

/// The byte contents of each seed.
pub open spec fn seed_views(seeds: Seq<Vec<u8>>) -> Seq<Seq<u8>> {
    seeds.map_values(|s: Vec<u8>| s@)
}

/// Seeds within the host's limits on their number and size.
pub open spec fn seeds_in_bounds(seeds: Seq<Seq<u8>>) -> bool {
    &&& seeds.len() <= MAX_SEEDS
    &&& forall|i: int| 0 <= i < seeds.len() ==> (#[trigger] seeds[i]).len() <= MAX_SEED_LEN
}

/// The bytes of a key that may be absent.
pub open spec fn key_view(k: Option<[u8; 32]>) -> Option<Seq<u8>> {
    match k {
        Some(a) => Some(a@),
        None => None,
    }
}

/// The seeds of an authority: the namespace, the owner keys, then the bump byte.
pub open spec fn authority_seeds(namespace: Seq<u8>, owners: Seq<Seq<u8>>, bump: u8) -> Seq<Seq<u8>> {
    seq![namespace] + owners + seq![seq![bump]]
}

/// Relies on `Pubkey::create_program_address` (solana-program, re-exported by
/// anchor-lang): it hashes the seeds and the program id,
/// and fails on seeds whose hash is a curve point. With at most sixteen seeds of at
/// most thirty-two bytes it fails on nothing else.
#[verifier::external_body]
fn create_program_address(seeds: &Vec<Vec<u8>>, program_id: &[u8; 32]) -> (r: Option<[u8; 32]>)
    requires
        seeds_in_bounds(seed_views(seeds@)),
    ensures
        key_view(r) == program_address(seed_views(seeds@), program_id@),
{
    let s: Vec<&[u8]> = seeds.iter().map(|v| v.as_slice()).collect();
    let pid = anchor_lang::prelude::Pubkey::new_from_array(*program_id);
    match anchor_lang::prelude::Pubkey::create_program_address(&s, &pid) {
        Ok(k) => Some(k.to_bytes()),
        Err(_) => None,
    }
}

/// The address and bump that the host's search finds for `seeds` under `program_id`,
/// or `None` when no bump byte gives a valid address.
pub uninterp spec fn found_address(seeds: Seq<Seq<u8>>, program_id: Seq<u8>) -> Option<(Seq<u8>, u8)>;

/// The bytes of a found address, with its bump.
pub open spec fn found_view(r: Option<([u8; 32], u8)>) -> Option<(Seq<u8>, u8)> {
    match r {
        Some((a, b)) => Some((a@, b)),
        None => None,
    }
}

/// Relies on `Pubkey::try_find_program_address` (solana-program, re-exported by
/// anchor-lang): it appends bump bytes from 255 downward and returns the first bump
/// whose seeds give a valid address, with that address.
#[verifier::external_body]
pub(crate) fn try_find_program_address(seeds: &Vec<Vec<u8>>, program_id: &[u8; 32]) -> (r: Option<([u8; 32], u8)>)
    requires
        seeds@.len() < MAX_SEEDS,
        forall|i: int| 0 <= i < seeds@.len() ==> (#[trigger] seeds@[i])@.len() <= MAX_SEED_LEN,
    ensures
        found_view(r) == found_address(seed_views(seeds@), program_id@),
        r matches Some((a, b)) ==> program_address(
            seed_views(seeds@).push(seq![b]),
            program_id@,
        ) == Some(a@),
{
    let s: Vec<&[u8]> = seeds.iter().map(|v| v.as_slice()).collect();
    let pid = anchor_lang::prelude::Pubkey::new_from_array(*program_id);
    anchor_lang::prelude::Pubkey::try_find_program_address(&s, &pid).map(|(k, b)| (k.to_bytes(), b))
}

/// The bytes of each key.
pub open spec fn key_seqs(owners: Seq<Key>) -> Seq<Seq<u8>> {
    owners.map_values(|k: Key| k@)
}

/// Namespace and owner keys fit the host's limits on seeds, with one seed left for the bump.
pub open spec fn derivable(namespace: Seq<u8>, owners: Seq<Key>) -> bool {
    namespace.len() <= MAX_SEED_LEN && owners.len() + 2 <= MAX_SEEDS
}

/// The derived address that `namespace`, `owners` and `bump` certify, if any.
pub open spec fn certified_address(namespace: Seq<u8>, owners: Seq<Key>, bump: u8, program_id: Seq<u8>) -> Option<Seq<u8>> {
    program_address(authority_seeds(namespace, key_seqs(owners), bump), program_id)
}

/// The address and bump that derivation yields for `namespace` and `owners`, if any.
pub open spec fn derived(namespace: Seq<u8>, owners: Seq<Key>, program_id: Seq<u8>) -> Option<(Seq<u8>, u8)> {
    found_address(seq![namespace] + key_seqs(owners), program_id)
}

/// Derives the authority address for a namespace and owner keys, with the bump that
/// certifies it. `None` where no bump byte gives an address off the signing curve.
pub fn derive_authority(namespace: &Vec<u8>, owners: &Vec<Key>, program_id: &Key) -> (r: Option<(Key, u8)>)
    requires
        derivable(namespace@, owners@),
    ensures
        found_view(r) == derived(namespace@, owners@, program_id@),
        r matches Some((a, b)) ==> certified_address(namespace@, owners@, b, program_id@) == Some(a@),
{
    let seeds = seed_list(namespace, owners);
    proof {
        assert(seed_views(seeds@).len() == seeds@.len());
        assert forall|i: int| 0 <= i < seeds@.len() implies (#[trigger] seeds@[i])@.len() <= MAX_SEED_LEN by {
            assert(seed_views(seeds@)[i] == seeds@[i]@);
            if i > 0 {
                assert(seed_views(seeds@)[i] == key_seqs(owners@)[i - 1]);
            }
        }
    }
    let r = try_find_program_address(&seeds, program_id);
    proof {
        if let Some((a, b)) = r {
            assert(seed_views(seeds@).push(seq![b]) =~= authority_seeds(namespace@, key_seqs(owners@), b));
        }
    }
    r
}

/// Checks a derivation proof: whether `namespace`, `owners` and `bump` derive exactly
/// the address `expected`. Fails closed: an invalid derivation is no match.
pub fn verify_authority(namespace: &Vec<u8>, owners: &Vec<Key>, bump: u8, program_id: &Key, expected: &Key) -> (r: bool)
    requires
        derivable(namespace@, owners@),
    ensures
        r == (certified_address(namespace@, owners@, bump, program_id@) == Some(expected@)),
{
    let mut seeds = seed_list(namespace, owners);
    let ghost before = seeds@;
    let mut last: Vec<u8> = Vec::new();
    last.push(bump);
    seeds.push(last);
    proof {
        assert(seed_views(seeds@) =~= seed_views(before).push(seq![bump]));
        assert(seed_views(seeds@) =~= authority_seeds(namespace@, key_seqs(owners@), bump));
        assert(seed_views(seeds@).len() == seeds@.len());
        assert forall|i: int| 0 <= i < seeds@.len() implies (#[trigger] seeds@[i])@.len() <= MAX_SEED_LEN by {
            assert(seed_views(seeds@)[i] == seeds@[i]@);
            if 0 < i < seeds@.len() - 1 {
                assert(seed_views(seeds@)[i] == key_seqs(owners@)[i - 1]);
            }
        }
    }
    match create_program_address(&seeds, program_id) {
        Some(a) => same_key(&a, expected),
        None => false,
    }
}

/// Whether two keys are the same bytes.
pub fn same_key(a: &[u8; 32], b: &[u8; 32]) -> (r: bool)
    ensures
        r == (a@ == b@),
{
    let mut i: usize = 0;
    while i < KEY_LEN
        invariant
            0 <= i <= KEY_LEN,
            a@.len() == KEY_LEN,
            b@.len() == KEY_LEN,
            forall|j: int| 0 <= j < i ==> a@[j] == b@[j],
        decreases KEY_LEN - i,
    {
        if a[i] != b[i] {
            return false;
        }
        i = i + 1;
    }
    assert(a@ =~= b@);
    true
}

/// The seed list `namespace`, then each owner key.
fn seed_list(namespace: &Vec<u8>, owners: &Vec<Key>) -> (r: Vec<Vec<u8>>)
    ensures
        seed_views(r@) == seq![namespace@] + key_seqs(owners@),
{
    let mut r: Vec<Vec<u8>> = Vec::new();
    r.push(namespace.clone());
    let mut i: usize = 0;
    while i < owners.len()
        invariant
            0 <= i <= owners@.len(),
            seed_views(r@) == seq![namespace@] + owners@.take(i as int).map_values(|k: [u8; 32]| k@),
        decreases owners@.len() - i,
    {
        let k = owners[i];
        let mut v: Vec<u8> = Vec::new();
        let mut j: usize = 0;
        while j < KEY_LEN
            invariant
                0 <= j <= KEY_LEN,
                k@.len() == KEY_LEN,
                v@ == k@.take(j as int),
            decreases KEY_LEN - j,
        {
            v.push(k[j]);
            j = j + 1;
            assert(v@ =~= k@.take(j as int));
        }
        assert(v@ =~= k@);
        let ghost before = r@;
        r.push(v);
        assert(seed_views(r@) =~= seed_views(before).push(k@));
        assert(owners@.take(i + 1) =~= owners@.take(i as int).push(k));
        assert(owners@.take(i + 1).map_values(|k: [u8; 32]| k@) =~= owners@.take(i as int).map_values(
            |k: [u8; 32]| k@,
        ).push(k@));
        assert(seed_views(r@) =~= seq![namespace@] + owners@.take(i + 1).map_values(|k: [u8; 32]| k@));
        i = i + 1;
    }
    assert(owners@.take(owners@.len() as int) =~= owners@);
    r
}

} // verus!
