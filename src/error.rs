use vstd::prelude::*;

verus! {

/// The failures a contract reports to its host. Every failing call leaves
/// the contract's record as it was.
#[derive(Clone, Copy, Debug, PartialEq, Eq, Structural)]
pub enum ContractError {
    /// The caller is not the owner, or a sender is not in the grant set.
    Unauthorized,
    /// The deliberate failure reported for the failing job outcome.
    SomeError,
    /// An address was rejected by the host's address validator.
    InvalidAddress,
    /// The linked counter contract could not be asked for its count.
    LinkedCountUnavailable,
    /// The counter would leave the range of a signed 32-bit integer.
    Overflow,
}

} // verus!
