use crate::bounty::{AccountId, Balance, Bounty, BountyId, Tick};
use crate::errors::Error;
use vstd::prelude::*;

verus! {

/// One lifecycle request, as the engine sees it after authentication: the
/// acting caller plus the operation's arguments.
pub enum Op {
    Issue { caller: AccountId, amount: Balance, deadline: Tick },
    Contribute { caller: AccountId, id: BountyId, amount: Balance },
    Approve { caller: AccountId, id: BountyId, recipient: AccountId },
    Reclaim { caller: AccountId, id: BountyId },
}

/// What `issue_bounty` does to the stored records. `can_debit` is the
/// custodian's answer on whether the caller covers `amount`: when it does,
/// a fresh record is appended; otherwise nothing changes.
pub open spec fn issue_step(
    bounties: Seq<Bounty>,
    caller: AccountId,
    amount: Balance,
    deadline: Tick,
    can_debit: bool,
) -> (Seq<Bounty>, Result<(), Error>) {
    if !can_debit {
        (bounties, Err(Error::InsufficientFunds))
    } else {
        (
            bounties.push(
                Bounty { issuer: caller, deadline, balance: amount, has_paid_out: false },
            ),
            Ok(()),
        )
    }
}

/// What `contribute` does to the stored records at tick `tick`. The bounty
/// must exist and still be active (a tick equal to the deadline is still
/// active), and the custodian must answer that the caller covers `amount`;
/// then the bounty's balance grows by `amount`.
pub open spec fn contribute_step(
    bounties: Seq<Bounty>,
    tick: Tick,
    id: BountyId,
    amount: Balance,
    can_debit: bool,
) -> (Seq<Bounty>, Result<(), Error>) {
    if id >= bounties.len() {
        (bounties, Err(Error::InvalidBounty))
    } else if tick > bounties[id as int].deadline {
        (bounties, Err(Error::PassedDeadline))
    } else if !can_debit {
        (bounties, Err(Error::InsufficientFunds))
    } else {
        let grown = Bounty {
            balance: (bounties[id as int].balance + amount) as Balance,
            ..bounties[id as int]
        };
        (bounties.update(id as int, grown), Ok(()))
    }
}

/// What `approve_submission` does to the stored records at tick `tick`. The
/// guards run in this order: the bounty must exist, must not have paid out
/// yet, the caller must be its issuer, and the deadline must not have passed.
/// Then the paid-out flag is set; the balance itself stays as it was even
/// though its amount goes to the recipient.
pub open spec fn approve_step(
    bounties: Seq<Bounty>,
    tick: Tick,
    caller: AccountId,
    id: BountyId,
) -> (Seq<Bounty>, Result<(), Error>) {
    if id >= bounties.len() {
        (bounties, Err(Error::InvalidBounty))
    } else if bounties[id as int].has_paid_out {
        (bounties, Err(Error::AlreadyPaidOut))
    } else if caller != bounties[id as int].issuer {
        (bounties, Err(Error::OnlyIssuer))
    } else if tick > bounties[id as int].deadline {
        (bounties, Err(Error::PassedDeadline))
    } else {
        let paid = Bounty { has_paid_out: true, ..bounties[id as int] };
        (bounties.update(id as int, paid), Ok(()))
    }
}

/// What `reclaim_deposit` does to the stored records at tick `tick`. The
/// guards run in this order: the bounty must exist, the deadline must have
/// passed (strictly: a tick equal to the deadline still blocks), and the
/// caller must be the issuer. Then the balance is zeroed; its amount goes
/// back to the issuer.
pub open spec fn reclaim_step(
    bounties: Seq<Bounty>,
    tick: Tick,
    caller: AccountId,
    id: BountyId,
) -> (Seq<Bounty>, Result<(), Error>) {
    if id >= bounties.len() {
        (bounties, Err(Error::InvalidBounty))
    } else if tick <= bounties[id as int].deadline {
        (bounties, Err(Error::StillActive))
    } else if caller != bounties[id as int].issuer {
        (bounties, Err(Error::OnlyIssuer))
    } else {
        let emptied = Bounty { balance: 0, ..bounties[id as int] };
        (bounties.update(id as int, emptied), Ok(()))
    }
}

/// Every lifecycle operation at once: what `op` does to the stored records at
/// tick `tick`, with `can_debit` standing for the custodian's answer on the
/// operation's debit, where it makes one.
pub open spec fn step(bounties: Seq<Bounty>, tick: Tick, can_debit: bool, op: Op) -> (
    Seq<Bounty>,
    Result<(), Error>,
) {
    match op {
        Op::Issue { caller, amount, deadline } => issue_step(
            bounties,
            caller,
            amount,
            deadline,
            can_debit,
        ),
        Op::Contribute { caller, id, amount } => contribute_step(
            bounties,
            tick,
            id,
            amount,
            can_debit,
        ),
        Op::Approve { caller, id, recipient: _ } => approve_step(bounties, tick, caller, id),
        Op::Reclaim { caller, id } => reclaim_step(bounties, tick, caller, id),
    }
}

} // verus!
