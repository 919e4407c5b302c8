use vstd::prelude::*;

verus! {

/// An account identifier, as handed to the engine by whatever authenticates
/// callers.
pub type AccountId = u64;

/// An amount of funds.
pub type Balance = u64;

/// A logical-time value (a block height); deadlines are compared against it.
pub type Tick = u64;

/// A bounty identifier: a dense sequence number, assigned at creation and
/// never reused.
pub type BountyId = u64;

/// An escrowed-funds record. `issuer` and `deadline` are fixed at creation;
/// `balance` grows with contributions and is zeroed by a reclaim;
/// `has_paid_out` is set exactly once by a successful approval.
#[derive(Clone, Copy, Debug, PartialEq, Eq, Structural)]
pub struct Bounty {
    pub issuer: AccountId,
    pub deadline: Tick,
    pub balance: Balance,
    pub has_paid_out: bool,
}

} // verus!
