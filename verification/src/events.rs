use crate::bounty::{AccountId, Balance, BountyId, Tick};
use vstd::prelude::*;

verus! {

/// A notification recorded after each successful state transition, in the
/// order the transitions happened.
#[derive(Clone, Copy, Debug, PartialEq, Eq, Structural)]
pub enum Event {
    /// A bounty was created: its id, its issuer, the escrowed amount, and the
    /// deadline.
    Issued(BountyId, AccountId, Balance, Tick),
    /// A submission was approved: the bounty id and the payout recipient.
    ApprovedSubmission(BountyId, AccountId),
    /// Funds were added to a bounty: its id and the amount.
    Contributed(BountyId, Balance),
    /// A bounty's remaining funds went back to its issuer.
    ReclaimedDeposit(BountyId),
}

} // verus!
