//! Errors that the program's checks report.
use vstd::prelude::*;

verus! {

/// Why a check on the Solido state or on an account passed to it failed.
#[derive(Clone, Copy, Debug, PartialEq, Eq, Structural)]
pub enum LidoError {
    /// The Solido instance has already been initialized.
    AlreadyInUse,
    /// The account is not the stSOL mint, or not an SPL token account.
    InvalidStSolAccount,
    /// The token account is not denominated in stSOL.
    InvalidFeeRecipient,
    /// The signer is not the manager, or not one of the maintainers.
    InvalidManager,
    /// The reserve account could not be derived, or is not the one passed.
    InvalidReserveAuthority,
}

} // verus!
