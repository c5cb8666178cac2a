use vstd::prelude::*;

verus! {

/// The distinct failures that can abort a resolution. Every failure aborts
/// the operation with no state change and no funds movement.
#[derive(Clone, Copy, Debug, PartialEq, Eq, Structural)]
pub enum DiceError {
    /// The co-submitted verification record is missing or malformed.
    VerificationRecordUnavailable,
    /// The verification record holds zero, or more than one, signature entry.
    SignatureCountInvalid,
    /// The single entry is present but not marked as platform-checked.
    SignatureNotVerifiable,
    /// The verified public key is absent or differs from the house authority.
    SignerMismatch,
    /// The verified signature bytes are absent or differ from the supplied ones.
    SignatureMismatch,
    /// Payout arithmetic would overflow or lose information.
    ArithmeticOverflow,
    /// No open bet record exists at the referenced address.
    BetNotFound,
    /// The escrow does not hold enough funds to pay the winner.
    InsufficientEscrow,
}

} // verus!
