use ticket_master::errors::TicketError;
use ticket_master::market::Marketplace;
use ticket_master::ops;
use ticket_master::royalty::parse_royalty_shares;

fn sample_event(royalty: &str, date: i64, total_tickets: u64) -> ticket_master::records::EventAccount {
    ops::create_event(
        7,
        String::from("ev-1"),
        String::from("Concert"),
        String::from("An evening of music"),
        String::from(royalty),
        String::from("Main Hall"),
        date,
        total_tickets,
        500,
    )
}

#[test]
fn create_event_initial_state() {
    let e = sample_event("10,5,5", 1000, 3);
    assert_eq!(e.authority, 7);
    assert_eq!(e.event_id, "ev-1");
    assert_eq!(e.tickets_sold, 0);
    assert_eq!(e.total_tickets, 3);
    assert!(e.is_active);
}

#[test]
fn capacity_is_never_exceeded() {
    let mut e = sample_event("10,5,5", 1000, 2);
    let r1 = ops::purchase_ticket(&mut e, 0, String::from("t1"), String::from("alice"), 500, 10);
    assert!(r1.is_ok());
    assert_eq!(e.tickets_sold, 1);
    let r2 = ops::purchase_ticket(&mut e, 0, String::from("t2"), String::from("bob"), 500, 11);
    assert!(r2.is_ok());
    assert_eq!(e.tickets_sold, 2);
    let r3 = ops::purchase_ticket(&mut e, 0, String::from("t3"), String::from("cara"), 500, 12);
    assert_eq!(r3.err(), Some(TicketError::TicketNotAvailable));
    assert_eq!(e.tickets_sold, 2);
}

#[test]
fn purchase_fails_after_deactivation() {
    let mut e = sample_event("10,5,5", 1000, 5);
    assert!(ops::deactivate_event(&mut e, 7).is_ok());
    assert!(!e.is_active);
    let r = ops::purchase_ticket(&mut e, 0, String::from("t1"), String::from("alice"), 500, 10);
    assert_eq!(r.err(), Some(TicketError::EventNotActive));
    assert_eq!(e.tickets_sold, 0);
}

#[test]
fn purchase_fails_at_or_after_cutoff_regardless_of_capacity() {
    let mut e = sample_event("10,5,5", 1000, 5);
    let at = ops::purchase_ticket(&mut e, 0, String::from("t1"), String::from("alice"), 500, 1000);
    assert_eq!(at.err(), Some(TicketError::EventExpired));
    let after = ops::purchase_ticket(&mut e, 0, String::from("t1"), String::from("alice"), 500, 2000);
    assert_eq!(after.err(), Some(TicketError::EventExpired));
    assert_eq!(e.tickets_sold, 0);
}

#[test]
fn new_ticket_starts_clean() {
    let mut e = sample_event("10,5,5", 1000, 5);
    let t = ops::purchase_ticket(&mut e, 9, String::from("t1"), String::from("alice"), 500, 42)
        .ok()
        .unwrap();
    assert_eq!(t.event, 9);
    assert_eq!(t.owner, "alice");
    assert_eq!(t.seller, "");
    assert_eq!(t.ticket_id, "t1");
    assert_eq!(t.purchase_date, 42);
    assert_eq!(t.ticket_price, 500);
    assert_eq!(t.resell_count, 0);
    assert_eq!(t.accumulated_royalty, 0);
    assert!(!t.royalty_distributed);
}

#[test]
fn resale_snapshots_pre_state_and_increments_count() {
    let e = sample_event("10,5,5", 1000, 5);
    let mut em = e;
    let mut t = ops::purchase_ticket(&mut em, 0, String::from("t1"), String::from("alice"), 500, 42)
        .ok()
        .unwrap();
    let h = ops::resell_ticket(
        &mut t,
        &em,
        3,
        String::from("alice"),
        String::from("bob"),
        800,
        100,
    )
    .ok()
    .unwrap();
    // The history record holds the ticket's state before the resale.
    assert_eq!(h.ticket, 3);
    assert_eq!(h.seller, "");
    assert_eq!(h.buyer, "alice");
    assert_eq!(h.purchase_date, 42);
    assert_eq!(h.ticket_price, 500);
    // The ticket has moved on.
    assert_eq!(t.owner, "bob");
    assert_eq!(t.seller, "alice");
    assert_eq!(t.purchase_date, 100);
    assert_eq!(t.ticket_price, 800);
    assert_eq!(t.resell_count, 1);
}

#[test]
fn resale_accrues_the_percentage_sum_of_the_spec() {
    let em = sample_event("10,5,5", 1000, 5);
    let mut e = em;
    let mut t = ops::purchase_ticket(&mut e, 0, String::from("t1"), String::from("alice"), 500, 42)
        .ok()
        .unwrap();
    // The accrual is the whole percentage sum of the spec: 10 + 5 + 5 = 20
    // percent of the resale price.
    let r = ops::resell_ticket(&mut t, &e, 0, String::from("alice"), String::from("bob"), 1000, 50);
    assert!(r.is_ok());
    assert_eq!(t.accumulated_royalty, 200);
}

#[test]
fn malformed_spec_accrues_default_20_percent() {
    let mut e = sample_event("abc", 1000, 5);
    let mut t = ops::purchase_ticket(&mut e, 0, String::from("t1"), String::from("alice"), 500, 42)
        .ok()
        .unwrap();
    let r = ops::resell_ticket(&mut t, &e, 0, String::from("alice"), String::from("bob"), 1000, 50);
    assert!(r.is_ok());
    assert_eq!(t.accumulated_royalty, 200);
}

#[test]
fn unparseable_components_fall_back_individually() {
    // Three components, middle one malformed: 10 + default 5 + 7 = 22%.
    assert_eq!(parse_royalty_shares("10,x,7"), (10, 5, 7));
    // A leading plus sign parses, as the standard integer grammar does.
    assert_eq!(parse_royalty_shares("+12,5,5"), (12, 5, 5));
    // A component too large for 64 bits fails to parse and defaults.
    assert_eq!(parse_royalty_shares("99999999999999999999,5,5"), (10, 5, 5));
    // Negative numbers are not non-negative integers.
    assert_eq!(parse_royalty_shares("-10,5,5"), (10, 5, 5));
    // Empty components default.
    assert_eq!(parse_royalty_shares(",,"), (10, 5, 5));
}

#[test]
fn fewer_than_three_components_use_the_full_default() {
    assert_eq!(parse_royalty_shares(""), (10, 5, 5));
    assert_eq!(parse_royalty_shares("30"), (10, 5, 5));
    assert_eq!(parse_royalty_shares("30,40"), (10, 5, 5));
}

#[test]
fn extra_components_are_ignored() {
    assert_eq!(parse_royalty_shares("1,2,3,4,5"), (1, 2, 3));
}

#[test]
fn resale_overflow_is_rejected_and_ticket_untouched() {
    let mut e = sample_event("10,5,5", 1000, 5);
    let mut t = ops::purchase_ticket(&mut e, 0, String::from("t1"), String::from("alice"), 500, 42)
        .ok()
        .unwrap();
    let r = ops::resell_ticket(
        &mut t,
        &e,
        0,
        String::from("alice"),
        String::from("bob"),
        u64::MAX,
        50,
    );
    assert_eq!(r.err(), Some(TicketError::MathOverflow));
    assert_eq!(t.owner, "alice");
    assert_eq!(t.resell_count, 0);
    assert_eq!(t.accumulated_royalty, 0);
}

#[test]
fn distribution_splits_100_as_50_25_25() {
    let mut e = sample_event("10,5,5", 1000, 5);
    let mut t = ops::purchase_ticket(&mut e, 0, String::from("t1"), String::from("alice"), 500, 42)
        .ok()
        .unwrap();
    // One resale at 500 accrues 500 * 20 / 100 = 100.
    let r = ops::resell_ticket(&mut t, &e, 0, String::from("alice"), String::from("bob"), 500, 50);
    assert!(r.is_ok());
    assert_eq!(t.accumulated_royalty, 100);
    let p = ops::distribute_royalty(&mut t, &e).ok().unwrap();
    assert_eq!(p.ticketmaster, 50);
    assert_eq!(p.team, 25);
    assert_eq!(p.solpass, 25);
    assert_eq!(p.ticketmaster + p.team + p.solpass, 100);
    assert!(t.royalty_distributed);
    // The accumulated royalty is not reset by distribution.
    assert_eq!(t.accumulated_royalty, 100);
}

#[test]
fn third_share_absorbs_the_rounding_remainder() {
    let mut e = sample_event("10,5,5", 1000, 5);
    let mut t = ops::purchase_ticket(&mut e, 0, String::from("t1"), String::from("alice"), 500, 42)
        .ok()
        .unwrap();
    // 505 * 20 / 100 = 101 accumulated; 101*10/20 = 50, 101*5/20 = 25,
    // remainder share = 101 - 50 - 25 = 26.
    let r = ops::resell_ticket(&mut t, &e, 0, String::from("alice"), String::from("bob"), 505, 50);
    assert!(r.is_ok());
    assert_eq!(t.accumulated_royalty, 101);
    let p = ops::distribute_royalty(&mut t, &e).ok().unwrap();
    assert_eq!(p.ticketmaster, 50);
    assert_eq!(p.team, 25);
    assert_eq!(p.solpass, 26);
    assert_eq!(p.ticketmaster + p.team + p.solpass, 101);
}

#[test]
fn distribution_is_repeatable_and_pays_the_same_amount_twice() {
    let mut e = sample_event("10,5,5", 1000, 5);
    let mut t = ops::purchase_ticket(&mut e, 0, String::from("t1"), String::from("alice"), 500, 42)
        .ok()
        .unwrap();
    let r = ops::resell_ticket(&mut t, &e, 0, String::from("alice"), String::from("bob"), 500, 50);
    assert!(r.is_ok());
    let p1 = ops::distribute_royalty(&mut t, &e).ok().unwrap();
    // No guard on the flag, and the accrual is not reset: a second call
    // computes the identical payout. This reproduces the pinned behaviour.
    let p2 = ops::distribute_royalty(&mut t, &e).ok().unwrap();
    assert_eq!(p1.ticketmaster, p2.ticketmaster);
    assert_eq!(p1.team, p2.team);
    assert_eq!(p1.solpass, p2.solpass);
    assert_eq!(t.accumulated_royalty, 100);
    assert!(t.royalty_distributed);
}

#[test]
fn zero_percentage_sum_is_rejected_as_overflow() {
    let mut e = sample_event("0,0,0", 1000, 5);
    let mut t = ops::purchase_ticket(&mut e, 0, String::from("t1"), String::from("alice"), 500, 42)
        .ok()
        .unwrap();
    // A zero split accrues nothing on resale...
    let r = ops::resell_ticket(&mut t, &e, 0, String::from("alice"), String::from("bob"), 1000, 50);
    assert!(r.is_ok());
    assert_eq!(t.accumulated_royalty, 0);
    // ...and cannot be distributed: the split would divide by zero.
    let p = ops::distribute_royalty(&mut t, &e);
    assert_eq!(p.err(), Some(TicketError::MathOverflow));
    assert!(!t.royalty_distributed);
}

#[test]
fn resale_is_not_guarded_by_the_active_flag() {
    // Only purchases check activity and the cutoff; a ticket on a
    // deactivated or past event can still change hands.
    let mut e = sample_event("10,5,5", 1000, 5);
    let mut t = ops::purchase_ticket(&mut e, 0, String::from("t1"), String::from("alice"), 500, 42)
        .ok()
        .unwrap();
    assert!(ops::deactivate_event(&mut e, 7).is_ok());
    let r = ops::resell_ticket(&mut t, &e, 0, String::from("alice"), String::from("bob"), 800, 2000);
    assert!(r.is_ok());
    assert_eq!(t.owner, "bob");
}

#[test]
fn unauthorized_deactivation_leaves_event_active() {
    let mut e = sample_event("10,5,5", 1000, 5);
    let r = ops::deactivate_event(&mut e, 8);
    assert_eq!(r.err(), Some(TicketError::Unauthorized));
    assert!(e.is_active);
    // The creator still can.
    assert!(ops::deactivate_event(&mut e, 7).is_ok());
    assert!(!e.is_active);
}

#[test]
fn store_rejects_duplicate_event_addresses() {
    let mut m = Marketplace::new();
    let a1 = m.create_event(
        7,
        String::from("ev-1"),
        String::from("Concert"),
        String::from("d"),
        String::from("10,5,5"),
        String::from("Hall"),
        1000,
        3,
        500,
    );
    assert_eq!(a1.ok(), Some(0));
    let a2 = m.create_event(
        7,
        String::from("ev-1"),
        String::from("Other name"),
        String::from("d"),
        String::from("1,1,1"),
        String::from("Hall"),
        2000,
        9,
        100,
    );
    assert_eq!(a2.err(), Some(TicketError::DuplicateRecord));
    // A different creator may reuse the business identifier.
    let a3 = m.create_event(
        8,
        String::from("ev-1"),
        String::from("Concert"),
        String::from("d"),
        String::from("10,5,5"),
        String::from("Hall"),
        1000,
        3,
        500,
    );
    assert_eq!(a3.ok(), Some(1));
}

#[test]
fn store_rejects_duplicate_ticket_addresses() {
    let mut m = Marketplace::new();
    let ev = m
        .create_event(
            7,
            String::from("ev-1"),
            String::from("Concert"),
            String::from("d"),
            String::from("10,5,5"),
            String::from("Hall"),
            1000,
            3,
            500,
        )
        .ok()
        .unwrap();
    let t1 = m.purchase_ticket(ev, String::from("seat-1"), String::from("alice"), 500, 10);
    assert_eq!(t1.ok(), Some(0));
    let t2 = m.purchase_ticket(ev, String::from("seat-1"), String::from("bob"), 500, 11);
    assert_eq!(t2.err(), Some(TicketError::DuplicateRecord));
    let t3 = m.purchase_ticket(ev, String::from("seat-2"), String::from("bob"), 500, 11);
    assert_eq!(t3.ok(), Some(1));
}

#[test]
fn full_flow_through_the_store() {
    let mut m = Marketplace::new();
    let ev = m
        .create_event(
            7,
            String::from("ev-1"),
            String::from("Concert"),
            String::from("d"),
            String::from("10,5,5"),
            String::from("Hall"),
            1000,
            2,
            500,
        )
        .ok()
        .unwrap();
    let tk = m
        .purchase_ticket(ev, String::from("seat-1"), String::from("alice"), 500, 10)
        .ok()
        .unwrap();
    assert_eq!(m.events[ev as usize].tickets_sold, 1);
    let r = m.resell_ticket(tk, String::from("alice"), String::from("bob"), 1000, 20);
    assert!(r.is_ok());
    assert_eq!(m.history.len(), 1);
    assert_eq!(m.history[0].0, 0);
    assert_eq!(m.history[0].1.buyer, "alice");
    assert_eq!(m.history[0].1.ticket_price, 500);
    let t = &m.tickets[tk as usize];
    assert_eq!(t.owner, "bob");
    assert_eq!(t.resell_count, 1);
    assert_eq!(t.accumulated_royalty, 200);
    let p = m.distribute_royalty(tk).ok().unwrap();
    assert_eq!(p.ticketmaster, 100);
    assert_eq!(p.team, 50);
    assert_eq!(p.solpass, 50);
    assert!(m.tickets[tk as usize].royalty_distributed);
    // A second resale files history under the next index.
    let r2 = m.resell_ticket(tk, String::from("bob"), String::from("cara"), 2000, 30);
    assert!(r2.is_ok());
    assert_eq!(m.history.len(), 2);
    assert_eq!(m.history[1].0, 1);
    assert_eq!(m.history[1].1.buyer, "bob");
    assert_eq!(m.history[1].1.ticket_price, 1000);
}

#[test]
fn deactivation_through_the_store() {
    let mut m = Marketplace::new();
    let ev = m
        .create_event(
            7,
            String::from("ev-1"),
            String::from("Concert"),
            String::from("d"),
            String::from("10,5,5"),
            String::from("Hall"),
            1000,
            2,
            500,
        )
        .ok()
        .unwrap();
    assert_eq!(
        m.deactivate_event(8, ev).err(),
        Some(TicketError::Unauthorized)
    );
    assert!(m.events[ev as usize].is_active);
    assert!(m.deactivate_event(7, ev).is_ok());
    assert!(!m.events[ev as usize].is_active);
    assert_eq!(
        m.purchase_ticket(ev, String::from("seat-1"), String::from("alice"), 500, 10)
            .err(),
        Some(TicketError::EventNotActive)
    );
}
