//! The rent sysvar: what an account must hold to be exempt from rent.
use vstd::prelude::*;

verus! {

/// Bytes that every account is charged for besides its data.
pub const ACCOUNT_STORAGE_OVERHEAD: u64 = 128;

/// Largest data length that an account may have (10 MiB).
pub const MAX_PERMITTED_DATA_LENGTH: u64 = 10 * 1024 * 1024;

/// Largest rate that the exemption threshold 2.0 accepts.
pub const CURRENT_MAX_LAMPORTS_PER_BYTE: u64 = 879_598_564_933;

/// Largest rate that the exemption threshold 1.0 accepts.
pub const SIMD0194_MAX_LAMPORTS_PER_BYTE: u64 = 1_759_197_129_867;

/// The rent parameters of the cluster.
#[derive(Clone, Copy, Debug, PartialEq, Eq)]
pub struct Rent {
    /// Rental rate in lamports per byte.
    pub lamports_per_byte: u64,
    /// The exemption threshold, a little-endian `f64`.
    pub exemption_threshold: [u8; 8],
    /// The percentage of collected rent that is burned.
    pub burn_percent: u8,
}

/// The bytes of the exemption threshold 1.0.
pub open spec fn threshold_one() -> Seq<u8> {
    seq![0u8, 0u8, 0u8, 0u8, 0u8, 0u8, 240u8, 63u8]
}

/// The bytes of the exemption threshold 2.0.
pub open spec fn threshold_two() -> Seq<u8> {
    seq![0u8, 0u8, 0u8, 0u8, 0u8, 0u8, 0u8, 64u8]
}

/// The lamports that an account of `data_len` bytes must hold when the
/// exemption threshold is neither 1.0 nor 2.0: the charged bytes times the
/// rate, times the threshold as a float, truncated. It depends on its
/// arguments alone.
pub uninterp spec fn float_minimum_balance(lamports_per_byte: u64, exemption_threshold: Seq<u8>, data_len: usize) -> u64;

/// Whether the minimum balance of `data_len` bytes can be computed without a
/// panic: the length is permitted, the rate is within the limit of the
/// threshold, and for other thresholds the charged bytes times the rate fit
/// in a `u64`.
pub open spec fn minimum_balance_computable(rent: Rent, data_len: usize) -> bool {
    let thr = rent.exemption_threshold@;
    &&& data_len <= MAX_PERMITTED_DATA_LENGTH
    &&& thr == threshold_two() ==> rent.lamports_per_byte <= CURRENT_MAX_LAMPORTS_PER_BYTE
    &&& thr == threshold_one() ==> rent.lamports_per_byte <= SIMD0194_MAX_LAMPORTS_PER_BYTE
    &&& (thr != threshold_one() && thr != threshold_two())
        ==> (ACCOUNT_STORAGE_OVERHEAD + data_len) * rent.lamports_per_byte <= u64::MAX
}

/// The lamports that an account of `data_len` bytes must hold to be exempt
/// from rent: the charged bytes times the rate, doubled under threshold 2.0.
pub open spec fn minimum_balance(rent: Rent, data_len: usize) -> u64 {
    let thr = rent.exemption_threshold@;
    if thr == threshold_one() {
        ((ACCOUNT_STORAGE_OVERHEAD + data_len) * rent.lamports_per_byte) as u64
    } else if thr == threshold_two() {
        (2 * (ACCOUNT_STORAGE_OVERHEAD + data_len) * rent.lamports_per_byte) as u64
    } else {
        float_minimum_balance(rent.lamports_per_byte, thr, data_len)
    }
}

/// Calls `Rent::minimum_balance` of `solana_program` (the `solana-rent`
/// crate), which panics where [`minimum_balance_computable`] fails; `requires`
/// leaves that out. Claimed: the result is [`minimum_balance`]; in the
/// integer cases it is written out, in the float case it is named.
#[verifier::external_body]
pub(crate) fn rent_minimum_balance(rent: &Rent, data_len: usize) -> (res: u64)
    requires
        minimum_balance_computable(*rent, data_len),
    ensures
        res == minimum_balance(*rent, data_len),
        rent.exemption_threshold@ != threshold_one() && rent.exemption_threshold@ != threshold_two()
            ==> res == float_minimum_balance(rent.lamports_per_byte, rent.exemption_threshold@, data_len),
{
    #[allow(deprecated)]
    let outside = solana_program::rent::Rent {
        lamports_per_byte: rent.lamports_per_byte,
        exemption_threshold: rent.exemption_threshold,
        burn_percent: rent.burn_percent,
    };
    outside.minimum_balance(data_len)
}

} // verus!
