use crate::bounty::{AccountId, Balance, Bounty, BountyId, Tick};
use crate::errors::Error;
use crate::model::{approve_step, contribute_step, reclaim_step, step, Op};
use vstd::prelude::*;

verus! {

/// A successful approval marks the bounty paid out.
pub proof fn lemma_approval_sets_flag(
    bounties: Seq<Bounty>,
    tick: Tick,
    caller: AccountId,
    id: BountyId,
)
    requires
        approve_step(bounties, tick, caller, id).1 is Ok,
    ensures
        approve_step(bounties, tick, caller, id).0[id as int].has_paid_out,
{
}

/// Once a bounty is marked paid out, no lifecycle operation — whoever calls
/// it, at whatever tick, whatever the custodian answers — ever clears the
/// mark, and none removes the record.
pub proof fn lemma_paid_out_is_permanent(
    bounties: Seq<Bounty>,
    tick: Tick,
    can_debit: bool,
    op: Op,
    id: BountyId,
)
    requires
        id < bounties.len(),
        bounties[id as int].has_paid_out,
    ensures
        step(bounties, tick, can_debit, op).0.len() >= bounties.len(),
        step(bounties, tick, can_debit, op).0[id as int].has_paid_out,
{
}

/// Every approval after a successful one fails with `AlreadyPaidOut`: at
/// most one approval ever succeeds for a bounty.
pub proof fn lemma_second_approval_fails(
    bounties: Seq<Bounty>,
    tick: Tick,
    caller: AccountId,
    id: BountyId,
)
    requires
        id < bounties.len(),
        bounties[id as int].has_paid_out,
    ensures
        approve_step(bounties, tick, caller, id).1 == Err::<(), Error>(Error::AlreadyPaidOut),
{
}

/// A reclaim never succeeds while the tick has not strictly passed the
/// bounty's deadline: it fails with `StillActive`.
pub proof fn lemma_no_reclaim_before_deadline(
    bounties: Seq<Bounty>,
    tick: Tick,
    caller: AccountId,
    id: BountyId,
)
    requires
        id < bounties.len(),
        tick <= bounties[id as int].deadline,
    ensures
        reclaim_step(bounties, tick, caller, id).1 == Err::<(), Error>(Error::StillActive),
{
}

/// Once the tick strictly exceeds a bounty's deadline, neither a
/// contribution nor an approval ever succeeds; a contribution fails with
/// `PassedDeadline`, and so does an approval whose earlier guards pass.
pub proof fn lemma_no_action_past_deadline(
    bounties: Seq<Bounty>,
    tick: Tick,
    caller: AccountId,
    id: BountyId,
    amount: Balance,
    can_debit: bool,
)
    requires
        id < bounties.len(),
        tick > bounties[id as int].deadline,
    ensures
        contribute_step(bounties, tick, id, amount, can_debit).1 == Err::<(), Error>(
            Error::PassedDeadline,
        ),
        approve_step(bounties, tick, caller, id).1 is Err,
        !bounties[id as int].has_paid_out && caller == bounties[id as int].issuer
            ==> approve_step(bounties, tick, caller, id).1 == Err::<(), Error>(
            Error::PassedDeadline,
        ),
{
}

/// A caller who is not the issuer never gets past the issuer guard: an
/// approval of a bounty not yet paid out fails with `OnlyIssuer`, and so
/// does a reclaim of one whose deadline has passed. (On a bounty already
/// paid out, or one still active, the earlier guard answers instead.)
pub proof fn lemma_only_issuer(bounties: Seq<Bounty>, tick: Tick, caller: AccountId, id: BountyId)
    requires
        id < bounties.len(),
        caller != bounties[id as int].issuer,
    ensures
        !bounties[id as int].has_paid_out ==> approve_step(bounties, tick, caller, id).1 == Err::<
            (),
            Error,
        >(Error::OnlyIssuer),
        tick > bounties[id as int].deadline ==> reclaim_step(bounties, tick, caller, id).1
            == Err::<(), Error>(Error::OnlyIssuer),
{
}

/// An id no bounty was ever created under yields `InvalidBounty` from every
/// operation that takes one.
pub proof fn lemma_unknown_bounty(
    bounties: Seq<Bounty>,
    tick: Tick,
    caller: AccountId,
    id: BountyId,
    amount: Balance,
    can_debit: bool,
)
    requires
        id >= bounties.len(),
    ensures
        contribute_step(bounties, tick, id, amount, can_debit).1 == Err::<(), Error>(
            Error::InvalidBounty,
        ),
        approve_step(bounties, tick, caller, id).1 == Err::<(), Error>(Error::InvalidBounty),
        reclaim_step(bounties, tick, caller, id).1 == Err::<(), Error>(Error::InvalidBounty),
{
}

} // verus!
