//! Account addresses and program-derived addresses.
//!
//! An address is held as its 32 raw bytes. Deriving a program address hashes
//! the seeds with SHA-256 and tests the result against the ed25519 curve; that
//! work is done by `solana_program` and enters the proofs through the name
//! [`program_address`].
use vstd::prelude::*;

verus! {

/// Number of bytes in an address.
pub const PUBKEY_BYTES: usize = 32;

/// Most seeds that one program address may be derived from.
pub const MAX_SEEDS: usize = 16;

/// Most bytes in one seed.
pub const MAX_SEED_LEN: usize = 32;

/// An account address: 32 raw bytes.
#[derive(Clone, Copy, Debug, PartialEq, Eq)]
pub struct Pubkey(pub [u8; 32]);

impl View for Pubkey {
    type V = Seq<u8>;

    open spec fn view(&self) -> Seq<u8> {
        self.0@
    }
}

/// The all-zero address, which marks an unset key.
pub open spec fn zero_key() -> Seq<u8> {
    Seq::new(32, |i: int| 0u8)
}

impl Pubkey {
    /// The all-zero address.
    pub fn zero() -> (k: Pubkey)
        ensures
            k@ == zero_key(),
    {
        let k = Pubkey([0u8; 32]);
        assert(k@ =~= zero_key());
        k
    }

    /// Whether two addresses hold the same bytes.
    pub fn same_as(&self, other: &Pubkey) -> (r: bool)
        ensures
            r == (self@ == other@),
    {
        let mut i: usize = 0;
        while i < 32
            invariant
                i <= 32,
                self@.len() == 32,
                other@.len() == 32,
                forall|j: int| 0 <= j < i ==> self@[j] == other@[j],
            decreases 32 - i,
        {
            if self.0[i] != other.0[i] {
                return false;
            }
            i += 1;
        }
        assert(self@ =~= other@);
        true
    }

    /// The address as a vector of its bytes, for use as a seed.
    pub fn to_seed(&self) -> (v: Vec<u8>)
        ensures
            v@ == self@,
    {
        let mut v: Vec<u8> = Vec::new();
        let mut i: usize = 0;
        while i < 32
            invariant
                i <= 32,
                self@.len() == 32,
                v@ == self@.take(i as int),
            decreases 32 - i,
        {
            v.push(self.0[i]);
            i += 1;
            assert(v@ =~= self@.take(i as int));
        }
        assert(self@.take(32) =~= self@);
        v
    }
}

/// Byte `j` (counting from the least significant) of `x`.
pub open spec fn le_byte(x: u64, j: int) -> u8 {
    ((x >> ((8 * j) as u64)) & 0xff) as u8
}

/// The eight little-endian bytes of `x`.
pub open spec fn le_bytes(x: u64) -> Seq<u8> {
    Seq::new(8, |j: int| le_byte(x, j))
}

/// The little-endian encoding of `x`, as a seed.
pub fn u64_le_seed(x: u64) -> (v: Vec<u8>)
    ensures
        v@ == le_bytes(x),
{
    let mut v: Vec<u8> = Vec::new();
    let mut i: u64 = 0;
    while i < 8
        invariant
            i <= 8,
            v.len() == i,
            forall|j: int| 0 <= j < i ==> v@[j] == le_byte(x, j),
        decreases 8 - i,
    {
        v.push(((x >> (8 * i)) & 0xff) as u8);
        i += 1;
    }
    assert(v@ =~= le_bytes(x));
    v
}

/// Whether `seeds` are within the limits that a program address accepts:
/// at most [`MAX_SEEDS`] seeds of at most [`MAX_SEED_LEN`] bytes each.
pub open spec fn seeds_within_limits(seeds: Seq<Seq<u8>>) -> bool {
    &&& seeds.len() <= MAX_SEEDS
    &&& forall|i: int| 0 <= i < seeds.len() ==> #[trigger] seeds[i].len() <= MAX_SEED_LEN
}

/// The program address derived from `seeds` for the program `program_id`:
/// the SHA-256 hash of the seeds, the program id and the marker
/// "ProgramDerivedAddress", or `None` where that hash lies on the ed25519
/// curve. It depends on its arguments alone.
pub uninterp spec fn program_address(seeds: Seq<Seq<u8>>, program_id: Seq<u8>) -> Option<Seq<u8>>;

/// The search that `find_program_address` makes: bump seeds from `bump` down
/// to 1, each appended to `seeds` as a one-byte seed; the first that gives a
/// program address wins.
pub open spec fn first_program_address(seeds: Seq<Seq<u8>>, program_id: Seq<u8>, bump: int) -> Option<(Seq<u8>, u8)>
    decreases bump,
{
    if bump < 1 {
        None
    } else {
        match program_address(seeds.push(seq![bump as u8]), program_id) {
            Some(key) => Some((key, bump as u8)),
            None => first_program_address(seeds, program_id, bump - 1),
        }
    }
}

/// What `find_program_address` settles on: `None` where the seeds leave no room
/// for the bump seed (at least [`MAX_SEEDS`] seeds, or one too long), else the
/// search from bump 255 down.
pub open spec fn found_program_address(seeds: Seq<Seq<u8>>, program_id: Seq<u8>) -> Option<(Seq<u8>, u8)> {
    if seeds.len() >= MAX_SEEDS || !seeds_within_limits(seeds) {
        None
    } else {
        first_program_address(seeds, program_id, 255)
    }
}

/// The outside error type of address derivation.
#[verifier::external_type_specification]
#[verifier::external_body]
pub struct ExPubkeyError(solana_program::pubkey::PubkeyError);

/// Calls `Pubkey::create_program_address` of `solana_program`. Claimed: it
/// fails where the seeds break the limits; otherwise it succeeds exactly where
/// [`program_address`] gives an address, and returns that address.
#[verifier::external_body]
pub(crate) fn create_program_address(seeds: &Vec<Vec<u8>>, program_id: &Pubkey) -> (res: Result<Pubkey, solana_program::pubkey::PubkeyError>)
    ensures
        !seeds_within_limits(seeds.deep_view()) ==> res is Err,
        seeds_within_limits(seeds.deep_view()) ==> (match res {
            Ok(key) => program_address(seeds.deep_view(), program_id@) == Some(key@),
            Err(_) => program_address(seeds.deep_view(), program_id@) is None,
        }),
{
    let slices: Vec<&[u8]> = seeds.iter().map(|s| s.as_slice()).collect();
    let id = solana_program::pubkey::Pubkey::new_from_array(program_id.0);
    solana_program::pubkey::Pubkey::create_program_address(&slices, &id).map(|k| Pubkey(k.to_bytes()))
}

/// Calls `Pubkey::find_program_address` of `solana_program`, which panics where
/// no bump seed gives an address; `requires` leaves that out. Claimed: it
/// returns the address and bump of [`found_program_address`].
#[verifier::external_body]
pub(crate) fn find_program_address(seeds: &Vec<Vec<u8>>, program_id: &Pubkey) -> (res: (Pubkey, u8))
    requires
        found_program_address(seeds.deep_view(), program_id@) is Some,
    ensures
        found_program_address(seeds.deep_view(), program_id@) == Some((res.0@, res.1)),
{
    let slices: Vec<&[u8]> = seeds.iter().map(|s| s.as_slice()).collect();
    let id = solana_program::pubkey::Pubkey::new_from_array(program_id.0);
    let (key, bump) = solana_program::pubkey::Pubkey::find_program_address(&slices, &id);
    (Pubkey(key.to_bytes()), bump)
}

/// Calls `Pubkey::try_find_program_address` of `solana_program`. Claimed: it
/// returns [`found_program_address`], address and bump.
#[verifier::external_body]
pub(crate) fn try_find_program_address(seeds: &Vec<Vec<u8>>, program_id: &Pubkey) -> (res: Option<(Pubkey, u8)>)
    ensures
        match res {
            Some((key, bump)) => found_program_address(seeds.deep_view(), program_id@) == Some((key@, bump)),
            None => found_program_address(seeds.deep_view(), program_id@) is None,
        },
{
    let slices: Vec<&[u8]> = seeds.iter().map(|s| s.as_slice()).collect();
    let id = solana_program::pubkey::Pubkey::new_from_array(program_id.0);
    solana_program::pubkey::Pubkey::try_find_program_address(&slices, &id).map(|(k, b)| (Pubkey(k.to_bytes()), b))
}

/// The address that the search finds is one that a program address gives for
/// the seeds with the found bump appended, and no larger bump up to `bump`
/// gives one.
pub proof fn lemma_first_program_address_is_created(seeds: Seq<Seq<u8>>, program_id: Seq<u8>, bump: int)
    requires
        bump <= 255,
        first_program_address(seeds, program_id, bump) is Some,
    ensures
        ({
            let (key, b) = first_program_address(seeds, program_id, bump).unwrap();
            &&& 1 <= b <= bump
            &&& program_address(seeds.push(seq![b]), program_id) == Some(key)
            &&& forall|c: int| b < c <= bump ==> (#[trigger] program_address(seeds.push(seq![c as u8]), program_id)) is None
        }),
    decreases bump,
{
    if bump >= 1 {
        match program_address(seeds.push(seq![bump as u8]), program_id) {
            Some(_) => {},
            None => lemma_first_program_address_is_created(seeds, program_id, bump - 1),
        }
    }
}

/// `find_program_address` and `create_program_address` agree: the address
/// found is the one created from the seeds with the found bump appended,
/// those seeds are within the limits, and no larger bump seed gives an
/// address.
pub proof fn lemma_found_program_address_is_created(seeds: Seq<Seq<u8>>, program_id: Seq<u8>)
    requires
        found_program_address(seeds, program_id) is Some,
    ensures
        ({
            let (key, b) = found_program_address(seeds, program_id).unwrap();
            &&& 1 <= b
            &&& seeds_within_limits(seeds.push(seq![b]))
            &&& program_address(seeds.push(seq![b]), program_id) == Some(key)
            &&& forall|c: int| b < c <= 255 ==> (#[trigger] program_address(seeds.push(seq![c as u8]), program_id)) is None
        }),
{
    lemma_first_program_address_is_created(seeds, program_id, 255);
    let (key, b) = found_program_address(seeds, program_id).unwrap();
    let pushed = seeds.push(seq![b]);
    assert forall|i: int| 0 <= i < pushed.len() implies #[trigger] pushed[i].len() <= MAX_SEED_LEN by {
        if i < seeds.len() {
            assert(pushed[i] == seeds[i]);
        }
    }
}

} // verus!
