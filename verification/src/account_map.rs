//! Bounded maps from addresses to entries, stored as a list of pairs.
use vstd::prelude::*;
use crate::pubkey::Pubkey;
use crate::state::Validator;

verus! {

/// An address together with the entry stored for it.
#[derive(Clone, Copy, Debug, PartialEq, Eq)]
pub struct PubkeyAndEntry<T> {
    pub pubkey: Pubkey,
    pub entry: T,
}

/// A list of address-entry pairs that may hold at most `maximum_entries`
/// pairs; the bound fixes the size of the account that stores the map.
#[derive(Clone, Debug, PartialEq, Eq)]
pub struct AccountMap<T> {
    pub entries: Vec<PubkeyAndEntry<T>>,
    pub maximum_entries: u32,
}

/// A set of addresses: a map whose entries carry nothing.
pub type AccountSet = AccountMap<()>;

/// Bytes that the serialized form of any map spends besides its entries:
/// the length of the list and the bound, four bytes each.
pub const MAP_OVERHEAD_BYTES: usize = 8;

/// Serialized size of one validator entry: its address and the five fields
/// of [`Validator`] (four 8-byte amounts or seeds and one address).
pub const VALIDATOR_ENTRY_BYTES: usize = 32 + 8 + 32 + 8 + 8 + 8;

/// Serialized size of one entry of an address set: the address alone.
pub const SET_ENTRY_BYTES: usize = 32;

/// Bytes needed to serialize a map of `max_entries` entries of `entry_bytes` each.
pub open spec fn map_required_bytes(entry_bytes: int, max_entries: int) -> int {
    MAP_OVERHEAD_BYTES + entry_bytes * max_entries
}

/// How many entries of `entry_bytes` each fit in a buffer of `buffer_size` bytes.
pub open spec fn map_maximum_entries(entry_bytes: int, buffer_size: int) -> int {
    if buffer_size < MAP_OVERHEAD_BYTES {
        0
    } else {
        (buffer_size - MAP_OVERHEAD_BYTES) / entry_bytes
    }
}

impl<T> AccountMap<T> {
    /// An empty map that may hold up to `maximum_entries` entries.
    pub fn new(maximum_entries: u32) -> (m: AccountMap<T>)
        ensures
            m.entries@.len() == 0,
            m.maximum_entries == maximum_entries,
    {
        AccountMap { entries: Vec::new(), maximum_entries }
    }

    /// Whether some entry is stored under `key`.
    pub open spec fn has_key(&self, key: Seq<u8>) -> bool {
        exists|i: int| 0 <= i < self.entries@.len() && (#[trigger] self.entries@[i]).pubkey@ == key
    }

    /// Whether some entry is stored under `key`.
    pub fn contains_key(&self, key: &Pubkey) -> (r: bool)
        ensures
            r == self.has_key(key@),
    {
        let mut i: usize = 0;
        while i < self.entries.len()
            invariant
                i <= self.entries@.len(),
                forall|j: int| 0 <= j < i ==> (#[trigger] self.entries@[j]).pubkey@ != key@,
            decreases self.entries@.len() - i,
        {
            if self.entries[i].pubkey.same_as(key) {
                assert(self.entries@[i as int].pubkey@ == key@);
                return true;
            }
            i += 1;
        }
        false
    }
}

impl AccountMap<Validator> {
    /// Bytes needed to serialize a validator map of `max_entries` entries.
    pub fn required_bytes(max_entries: usize) -> (n: usize)
        requires
            map_required_bytes(VALIDATOR_ENTRY_BYTES as int, max_entries as int) <= usize::MAX,
        ensures
            n == map_required_bytes(VALIDATOR_ENTRY_BYTES as int, max_entries as int),
    {
        MAP_OVERHEAD_BYTES + VALIDATOR_ENTRY_BYTES * max_entries
    }

    /// How many validator entries fit in a buffer of `buffer_size` bytes.
    pub fn maximum_entries(buffer_size: usize) -> (n: usize)
        ensures
            n == map_maximum_entries(VALIDATOR_ENTRY_BYTES as int, buffer_size as int),
    {
        buffer_size.saturating_sub(MAP_OVERHEAD_BYTES) / VALIDATOR_ENTRY_BYTES
    }
}

impl AccountMap<()> {
    /// Bytes needed to serialize an address set of `max_entries` entries.
    pub fn required_bytes(max_entries: usize) -> (n: usize)
        requires
            map_required_bytes(SET_ENTRY_BYTES as int, max_entries as int) <= usize::MAX,
        ensures
            n == map_required_bytes(SET_ENTRY_BYTES as int, max_entries as int),
    {
        MAP_OVERHEAD_BYTES + SET_ENTRY_BYTES * max_entries
    }

    /// How many addresses fit in a buffer of `buffer_size` bytes.
    pub fn maximum_entries(buffer_size: usize) -> (n: usize)
        ensures
            n == map_maximum_entries(SET_ENTRY_BYTES as int, buffer_size as int),
    {
        buffer_size.saturating_sub(MAP_OVERHEAD_BYTES) / SET_ENTRY_BYTES
    }
}

/// The entries that fit in a buffer take no more than the buffer, unless none fit.
pub proof fn lemma_maximum_entries_fit(entry_bytes: int, buffer_size: int)
    requires
        entry_bytes > 0,
        buffer_size >= 0,
    ensures
        map_maximum_entries(entry_bytes, buffer_size) >= 0,
        map_required_bytes(entry_bytes, map_maximum_entries(entry_bytes, buffer_size)) <= buffer_size
            || map_maximum_entries(entry_bytes, buffer_size) == 0,
{
    if buffer_size >= MAP_OVERHEAD_BYTES {
        let r = buffer_size - MAP_OVERHEAD_BYTES;
        assert(entry_bytes * (r / entry_bytes) <= r) by (nonlinear_arith)
            requires
                entry_bytes > 0,
                r >= 0,
        ;
        assert(r / entry_bytes >= 0) by (nonlinear_arith)
            requires
                entry_bytes > 0,
                r >= 0,
        ;
    }
}

/// A buffer sized for exactly `n` entries holds exactly `n` entries.
pub proof fn lemma_maximum_entries_of_required_bytes(entry_bytes: int, n: int)
    requires
        entry_bytes > 0,
        n >= 0,
    ensures
        map_maximum_entries(entry_bytes, map_required_bytes(entry_bytes, n)) == n,
{
    assert(entry_bytes * n >= 0) by (nonlinear_arith)
        requires
            entry_bytes > 0,
            n >= 0,
    ;
    assert((entry_bytes * n) / entry_bytes == n) by (nonlinear_arith)
        requires
            entry_bytes > 0,
    ;
}

} // verus!
