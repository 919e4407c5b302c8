use bounty_pallet::bounty::Bounty;
use bounty_pallet::custodian::Ledger;
use bounty_pallet::engine::Module;
use bounty_pallet::errors::Error;
use bounty_pallet::events::Event;

#[test]
fn issue_moves_funds_into_escrow() {
    let mut pallet = Module::new();
    let mut ledger = Ledger::new();
    ledger.credit(1, 100);
    pallet.set_tick(1);

    assert!(pallet.issue_bounty(&mut ledger, 1, 40, 3).is_ok());
    assert_eq!(ledger.balance_of(1), 60);
    assert_eq!(pallet.get_total_bounties(), 1);
    assert_eq!(
        pallet.bounties_list(0),
        Some(Bounty {
            issuer: 1,
            deadline: 3,
            balance: 40,
            has_paid_out: false,
        })
    );
    assert_eq!(pallet.events, vec![Event::Issued(0, 1, 40, 3)]);
}

#[test]
fn contribute_increases_stored_balance() {
    let mut pallet = Module::new();
    let mut ledger = Ledger::new();
    ledger.credit(1, 20);
    ledger.credit(4, 10);
    pallet.set_tick(1);

    assert!(pallet.issue_bounty(&mut ledger, 1, 5, 3).is_ok());
    assert!(pallet.contribute(&mut ledger, 4, 0, 10).is_ok());

    let stored = pallet.bounties_list(0).unwrap();
    assert_eq!(stored.balance, 15);
    assert_eq!(ledger.balance_of(4), 0);
    assert_eq!(pallet.events[1], Event::Contributed(0, 10));
}

#[test]
fn payout_credits_recipient_but_keeps_stored_balance() {
    let mut pallet = Module::new();
    let mut ledger = Ledger::new();
    ledger.credit(1, 50);
    pallet.set_tick(1);

    assert!(pallet.issue_bounty(&mut ledger, 1, 30, 2).is_ok());
    assert!(pallet.approve_submission(&mut ledger, 1, 0, 7).is_ok());

    assert_eq!(ledger.balance_of(7), 30);
    let stored = pallet.bounties_list(0).unwrap();
    assert!(stored.has_paid_out);
    assert_eq!(stored.balance, 30);
}

#[test]
fn reclaim_after_payout_credits_issuer_again() {
    let mut pallet = Module::new();
    let mut ledger = Ledger::new();
    ledger.credit(1, 50);
    pallet.set_tick(1);

    assert!(pallet.issue_bounty(&mut ledger, 1, 30, 2).is_ok());
    assert!(pallet.approve_submission(&mut ledger, 1, 0, 7).is_ok());
    pallet.set_tick(3);

    assert!(pallet.reclaim_deposit(&mut ledger, 1, 0).is_ok());
    assert_eq!(pallet.bounties_list(0).unwrap().balance, 0);
    assert_eq!(ledger.balance_of(1), 50);
    assert_eq!(ledger.balance_of(7), 30);
}

#[test]
fn deadline_tick_itself_still_counts_as_active() {
    let mut pallet = Module::new();
    let mut ledger = Ledger::new();
    ledger.credit(2, 8);
    pallet.set_tick(5);

    assert!(pallet.issue_bounty(&mut ledger, 2, 3, 5).is_ok());
    assert!(pallet.contribute(&mut ledger, 2, 0, 5).is_ok());
    assert_eq!(
        pallet.reclaim_deposit(&mut ledger, 2, 0),
        Err(Error::StillActive)
    );
    assert!(pallet.approve_submission(&mut ledger, 2, 0, 9).is_ok());
}

#[test]
fn reclaim_succeeds_one_tick_past_deadline() {
    let mut pallet = Module::new();
    let mut ledger = Ledger::new();
    ledger.credit(2, 9);
    pallet.set_tick(5);

    assert!(pallet.issue_bounty(&mut ledger, 2, 9, 5).is_ok());
    assert_eq!(ledger.balance_of(2), 0);
    pallet.set_tick(6);

    assert!(pallet.reclaim_deposit(&mut ledger, 2, 0).is_ok());
    assert_eq!(pallet.bounties_list(0).unwrap().balance, 0);
    assert_eq!(ledger.balance_of(2), 9);
    assert_eq!(pallet.events[1], Event::ReclaimedDeposit(0));
}

#[test]
fn paid_out_guard_answers_before_issuer_guard() {
    let mut pallet = Module::new();
    let mut ledger = Ledger::new();
    pallet.set_tick(1);

    assert!(pallet.issue_bounty(&mut ledger, 1, 0, 1).is_ok());
    assert!(pallet.approve_submission(&mut ledger, 1, 0, 1).is_ok());
    assert_eq!(
        pallet.approve_submission(&mut ledger, 2, 0, 2),
        Err(Error::AlreadyPaidOut)
    );
}

#[test]
fn still_active_guard_answers_before_issuer_guard() {
    let mut pallet = Module::new();
    let mut ledger = Ledger::new();
    pallet.set_tick(1);

    assert!(pallet.issue_bounty(&mut ledger, 1, 0, 1).is_ok());
    assert_eq!(
        pallet.reclaim_deposit(&mut ledger, 2, 0),
        Err(Error::StillActive)
    );
}

#[test]
fn issue_past_deadline_is_reclaimable_at_once() {
    let mut pallet = Module::new();
    let mut ledger = Ledger::new();
    ledger.credit(3, 4);
    pallet.set_tick(5);

    assert!(pallet.issue_bounty(&mut ledger, 3, 4, 1).is_ok());
    assert_eq!(
        pallet.contribute(&mut ledger, 3, 0, 0),
        Err(Error::PassedDeadline)
    );
    assert!(pallet.reclaim_deposit(&mut ledger, 3, 0).is_ok());
    assert_eq!(ledger.balance_of(3), 4);
}
