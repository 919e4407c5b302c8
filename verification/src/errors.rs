use vstd::prelude::*;

verus! {

/// Everything a lifecycle operation can fail with. Each failure leaves all
/// state untouched; the first failing guard decides which variant comes back.
#[derive(Clone, Copy, Debug, PartialEq, Eq, Structural)]
pub enum Error {
    /// The custodian reports the caller cannot cover the requested debit.
    InsufficientFunds,
    /// The referenced bounty id has no record.
    InvalidBounty,
    /// A payout was attempted on a bounty already marked paid.
    AlreadyPaidOut,
    /// A contribution or approval was attempted after the deadline.
    PassedDeadline,
    /// A reclaim was attempted before the deadline has passed.
    StillActive,
    /// The caller is not the bounty's issuer.
    OnlyIssuer,
}

} // verus!
