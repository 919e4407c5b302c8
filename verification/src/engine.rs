use crate::bounty::{AccountId, Balance, Bounty, BountyId, Tick};
use crate::custodian::Ledger;
use crate::errors::Error;
use crate::events::Event;
use crate::model::{approve_step, contribute_step, issue_step, reclaim_step};
use crate::registry::Registry;
use vstd::prelude::*;

verus! {

/// Debits `amount` from `who` if the custodian reports the account covers
/// it; fails with `InsufficientFunds`, touching nothing, if it does not.
fn slash_value(custodian: &mut Ledger, who: AccountId, amount: Balance) -> (r: Result<(), Error>)
    ensures
        r is Ok <==> old(custodian).balance(who) >= amount,
        r is Err ==> r == Err::<(), Error>(Error::InsufficientFunds),
        r is Ok ==> final(custodian).balance(who) == old(custodian).balance(who) - amount,
        r is Err ==> final(custodian).balance(who) == old(custodian).balance(who),
        forall|a: AccountId| a != who ==> final(custodian).balance(a) == old(custodian).balance(a),
{
    if !custodian.can_debit(who, amount) {
        return Err(Error::InsufficientFunds);
    }
    custodian.debit(who, amount);
    Ok(())
}

/// The lifecycle engine and the state it owns: the registry of bounty
/// records, the log of events emitted by successful transitions, and the
/// last tick the clock supplied. The funds custodian stays outside and is
/// handed to each operation that moves money.
pub struct Module {
    pub registry: Registry,
    pub events: Vec<Event>,
    pub tick: Tick,
}

impl Module {
    /// An engine with no bounties, no events, and the clock at zero.
    pub fn new() -> (pallet: Module)
        ensures
            pallet.registry@ == Seq::<Bounty>::empty(),
            pallet.events@ == Seq::<Event>::empty(),
            pallet.tick == 0,
    {
        Module { registry: Registry::new(), events: Vec::new(), tick: 0 }
    }

    /// Takes the clock's current reading, which never decreases.
    pub fn set_tick(&mut self, tick: Tick)
        requires
            tick >= old(self).tick,
        ensures
            final(self).tick == tick,
            final(self).registry@ == old(self).registry@,
            final(self).events@ == old(self).events@,
    {
        self.tick = tick;
    }

    /// The number of bounties ever created, which is also the next id to
    /// assign.
    pub fn get_total_bounties(&self) -> (total: BountyId)
        ensures
            total == self.registry@.len(),
    {
        self.registry.next_id()
    }

    /// Looks a bounty up by id; an unknown id yields `None`.
    pub fn bounties_list(&self, id: BountyId) -> (record: Option<Bounty>)
        ensures
            record == if id < self.registry@.len() {
                Some(self.registry@[id as int])
            } else {
                None::<Bounty>
            },
    {
        self.registry.get(id)
    }

    /// Creates a bounty: debits `amount` from `caller` and appends a record
    /// with `caller` as issuer, the given deadline, `amount` escrowed, and
    /// the paid-out flag clear. Fails with `InsufficientFunds`, changing
    /// nothing, when the custodian reports `caller` cannot cover `amount`.
    pub fn issue_bounty(
        &mut self,
        custodian: &mut Ledger,
        caller: AccountId,
        amount: Balance,
        deadline: Tick,
    ) -> (r: Result<(), Error>)
        ensures
            r == issue_step(
                old(self).registry@,
                caller,
                amount,
                deadline,
                old(custodian).balance(caller) >= amount,
            ).1,
            final(self).registry@ == issue_step(
                old(self).registry@,
                caller,
                amount,
                deadline,
                old(custodian).balance(caller) >= amount,
            ).0,
            r is Ok <==> old(custodian).balance(caller) >= amount,
            r is Ok ==> final(self).registry@.len() == old(self).registry@.len() + 1,
            r is Ok ==> final(self).registry@.last() == (Bounty {
                issuer: caller,
                deadline,
                balance: amount,
                has_paid_out: false,
            }),
            r is Ok ==> final(custodian).balance(caller) == old(custodian).balance(caller)
                - amount,
            r is Ok ==> final(self).events@ == old(self).events@.push(
                Event::Issued(old(self).registry@.len() as BountyId, caller, amount, deadline),
            ),
            r is Err ==> final(custodian).balance(caller) == old(custodian).balance(caller),
            r is Err ==> final(self).events@ == old(self).events@,
            forall|a: AccountId|
                a != caller ==> final(custodian).balance(a) == old(custodian).balance(a),
            final(self).tick == old(self).tick,
    {
        slash_value(custodian, caller, amount)?;
        let id: BountyId = self.registry.next_id();
        let record = Bounty { issuer: caller, deadline, balance: amount, has_paid_out: false };
        self.registry.put(id, record);
        self.events.push(Event::Issued(id, caller, amount, deadline));
        Ok(())
    }

    /// Adds `amount` to an existing, still active bounty (a tick equal to
    /// the deadline still counts as active), debiting it from `caller`. The
    /// first failing guard decides the error: `InvalidBounty` for an unknown
    /// id, then `PassedDeadline`, then `InsufficientFunds`; nothing changes
    /// on failure.
    pub fn contribute(
        &mut self,
        custodian: &mut Ledger,
        caller: AccountId,
        id: BountyId,
        amount: Balance,
    ) -> (r: Result<(), Error>)
        requires
            contribute_step(
                old(self).registry@,
                old(self).tick,
                id,
                amount,
                old(custodian).balance(caller) >= amount,
            ).1 is Ok ==> old(self).registry@[id as int].balance + amount <= Balance::MAX,
        ensures
            r == contribute_step(
                old(self).registry@,
                old(self).tick,
                id,
                amount,
                old(custodian).balance(caller) >= amount,
            ).1,
            final(self).registry@ == contribute_step(
                old(self).registry@,
                old(self).tick,
                id,
                amount,
                old(custodian).balance(caller) >= amount,
            ).0,
            r is Ok ==> final(self).registry@[id as int].balance == old(
                self,
            ).registry@[id as int].balance + amount,
            r is Ok ==> final(custodian).balance(caller) == old(custodian).balance(caller)
                - amount,
            r is Ok ==> final(self).events@ == old(self).events@.push(
                Event::Contributed(id, amount),
            ),
            r is Err ==> final(custodian).balance(caller) == old(custodian).balance(caller),
            r is Err ==> final(self).events@ == old(self).events@,
            forall|a: AccountId|
                a != caller ==> final(custodian).balance(a) == old(custodian).balance(a),
            final(self).tick == old(self).tick,
    {
        let mut bounty = match self.registry.get(id) {
            Some(record) => record,
            None => {
                return Err(Error::InvalidBounty);
            },
        };
        if self.tick > bounty.deadline {
            return Err(Error::PassedDeadline);
        }
        slash_value(custodian, caller, amount)?;
        bounty.balance = bounty.balance + amount;
        self.registry.put(id, bounty);
        self.events.push(Event::Contributed(id, amount));
        Ok(())
    }

    /// Approves a submission: marks the bounty paid out and credits its full
    /// balance to `recipient`. The guards run in order — `InvalidBounty` for
    /// an unknown id, `AlreadyPaidOut` if a payout already happened,
    /// `OnlyIssuer` unless `caller` issued the bounty, `PassedDeadline` once
    /// the tick exceeds the deadline — and nothing changes on failure. The
    /// stored balance stays as it was: only the flag flips.
    pub fn approve_submission(
        &mut self,
        custodian: &mut Ledger,
        caller: AccountId,
        id: BountyId,
        recipient: AccountId,
    ) -> (r: Result<(), Error>)
        requires
            approve_step(old(self).registry@, old(self).tick, caller, id).1 is Ok ==> old(
                custodian,
            ).balance(recipient) + old(self).registry@[id as int].balance <= Balance::MAX,
        ensures
            r == approve_step(old(self).registry@, old(self).tick, caller, id).1,
            final(self).registry@ == approve_step(
                old(self).registry@,
                old(self).tick,
                caller,
                id,
            ).0,
            r is Ok ==> final(self).registry@[id as int].has_paid_out,
            r is Ok ==> final(self).registry@[id as int].balance == old(
                self,
            ).registry@[id as int].balance,
            r is Ok ==> final(custodian).balance(recipient) == old(custodian).balance(recipient)
                + old(self).registry@[id as int].balance,
            r is Ok ==> final(self).events@ == old(self).events@.push(
                Event::ApprovedSubmission(id, recipient),
            ),
            r is Err ==> final(custodian).balance(recipient) == old(custodian).balance(recipient),
            r is Err ==> final(self).events@ == old(self).events@,
            forall|a: AccountId|
                a != recipient ==> final(custodian).balance(a) == old(custodian).balance(a),
            final(self).tick == old(self).tick,
    {
        let mut bounty = match self.registry.get(id) {
            Some(record) => record,
            None => {
                return Err(Error::InvalidBounty);
            },
        };
        if bounty.has_paid_out {
            return Err(Error::AlreadyPaidOut);
        }
        if caller != bounty.issuer {
            return Err(Error::OnlyIssuer);
        }
        if self.tick > bounty.deadline {
            return Err(Error::PassedDeadline);
        }
        bounty.has_paid_out = true;
        custodian.credit(recipient, bounty.balance);
        self.registry.put(id, bounty);
        self.events.push(Event::ApprovedSubmission(id, recipient));
        Ok(())
    }

    /// Returns an expired bounty's remaining funds to its issuer: credits
    /// the balance back to `caller` and zeroes the record. The guards run in
    /// order — `InvalidBounty` for an unknown id, `StillActive` until the
    /// tick strictly exceeds the deadline, `OnlyIssuer` unless `caller`
    /// issued the bounty — and nothing changes on failure.
    pub fn reclaim_deposit(
        &mut self,
        custodian: &mut Ledger,
        caller: AccountId,
        id: BountyId,
    ) -> (r: Result<(), Error>)
        requires
            reclaim_step(old(self).registry@, old(self).tick, caller, id).1 is Ok ==> old(
                custodian,
            ).balance(caller) + old(self).registry@[id as int].balance <= Balance::MAX,
        ensures
            r == reclaim_step(old(self).registry@, old(self).tick, caller, id).1,
            final(self).registry@ == reclaim_step(
                old(self).registry@,
                old(self).tick,
                caller,
                id,
            ).0,
            r is Ok ==> final(self).registry@[id as int].balance == 0,
            r is Ok ==> final(custodian).balance(caller) == old(custodian).balance(caller) + old(
                self,
            ).registry@[id as int].balance,
            r is Ok ==> final(self).events@ == old(self).events@.push(
                Event::ReclaimedDeposit(id),
            ),
            r is Err ==> final(custodian).balance(caller) == old(custodian).balance(caller),
            r is Err ==> final(self).events@ == old(self).events@,
            forall|a: AccountId|
                a != caller ==> final(custodian).balance(a) == old(custodian).balance(a),
            final(self).tick == old(self).tick,
    {
        let mut bounty = match self.registry.get(id) {
            Some(record) => record,
            None => {
                return Err(Error::InvalidBounty);
            },
        };
        if self.tick <= bounty.deadline {
            return Err(Error::StillActive);
        }
        if caller != bounty.issuer {
            return Err(Error::OnlyIssuer);
        }
        custodian.credit(caller, bounty.balance);
        bounty.balance = 0;
        self.registry.put(id, bounty);
        self.events.push(Event::ReclaimedDeposit(id));
        Ok(())
    }
}

} // verus!
