use vstd::prelude::*;

verus! {

/// The rule violations the lifecycle managers report.
#[derive(Clone, Copy, Debug, PartialEq, Eq, Structural)]
pub enum RaffleError {
    /// A ticket purchase was attempted at or after the raffle's end time.
    RaffleEnded,
    /// Caller-supplied raffle metadata violates a stated bound.
    InputError,
    /// The caller does not satisfy the authorization policy, or a close was
    /// attempted by a non-owning identity.
    Unauthorized,
}

/// What an operation against the record store can report: either a rule
/// violation, or the absence of any record under the addressed identity.
#[derive(Clone, Copy, Debug, PartialEq, Eq, Structural)]
pub enum StoreError {
    /// The operation reached a live record but a lifecycle rule rejected it.
    Rejected(RaffleError),
    /// No record exists under the addressed identity.
    MissingRecord,
}

} // verus!
