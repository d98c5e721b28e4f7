use vstd::prelude::*;

verus! {

/// Why an operation on the ledger was refused. Every refusal leaves the
/// ledger as it was.
#[derive(Clone, Copy, Debug, PartialEq, Eq, Structural)]
pub enum FlowTipError {
    /// The handle is longer than the longest allowed handle.
    HandleTooLong,
    /// The handle has no bytes.
    HandleEmpty,
    /// A profile already stands at the handle's address.
    CreatorAlreadyInitialized,
    /// A tip of zero tokens.
    InvalidAmount,
    /// A running total would leave the range of `u64`.
    MathOverflow,
    /// No profile stands at the handle's address.
    ProfileNotFound,
    /// The token account presented is not the one bound to the profile.
    AccountMismatch,
    /// No storage address can be derived from the handle.
    AddressUnavailable,
    /// The token program refused the transfer, with its error code.
    TransferFailed(u64),
}

} // verus!
