use vstd::prelude::*;

use crate::errors::TicketError;
use crate::records::EventAccount;
use crate::records::TicketAccount;
use crate::records::TicketSellHistory;
use crate::records::event_capacity_ok;
use crate::records::event_fixed_fields_unchanged;
use crate::royalty::parse_royalty_shares;
use crate::royalty::royalty_shares;
use crate::royalty::royalty_total;
use vstd::arithmetic::div_mod::lemma_fundamental_div_mod;
use vstd::arithmetic::div_mod::lemma_mod_bound;

verus! {

/// A purchase goes through exactly when the event is active, the sale cutoff
/// has not been reached, and capacity remains. The checks happen in this
/// order, each a fail-fast abort.
pub open spec fn purchase_allowed(e: EventAccount, now: i64) -> bool {
    e.is_active && now < e.date && e.tickets_sold < e.total_tickets
}

/// The error reported for a disallowed purchase: the first violated check in
/// order (activity, then cutoff, then capacity).
pub open spec fn purchase_error(e: EventAccount, now: i64) -> TicketError {
    if !e.is_active {
        TicketError::EventNotActive
    } else if e.date <= now {
        TicketError::EventExpired
    } else {
        TicketError::TicketNotAvailable
    }
}

/// Creates a fresh event record. No validation happens at creation time:
/// price, capacity and royalty-spec well-formedness are deliberately not
/// checked here (a malformed royalty spec falls back to defaults when it is
/// parsed). Whether the record's address `(authority, event_id)` is free is
/// the record store's concern, not this constructor's.
pub fn create_event(
    authority: u64,
    event_id: String,
    name: String,
    description: String,
    royalty: String,
    venue: String,
    date: i64,
    total_tickets: u64,
    ticket_price: u64,
) -> (e: EventAccount)
    ensures
        e.authority == authority,
        e.event_id == event_id,
        e.name == name,
        e.description == description,
        e.royalty == royalty,
        e.venue == venue,
        e.date == date,
        e.total_tickets == total_tickets,
        e.tickets_sold == 0,
        e.ticket_price == ticket_price,
        e.is_active == true,
        event_capacity_ok(e),
{
    EventAccount {
        authority,
        event_id,
        name,
        description,
        royalty,
        venue,
        date,
        total_tickets,
        tickets_sold: 0,
        ticket_price,
        is_active: true,
    }
}

/// Deactivates an event. Only the creator may do so; an unauthorized caller
/// is rejected and the record is left untouched. The active flag only ever
/// transitions true to false: no operation reactivates an event.
pub fn deactivate_event(event: &mut EventAccount, caller: u64) -> (r: Result<
    (),
    TicketError,
>)
    ensures
        caller != old(event).authority ==> r == Result::<(), TicketError>::Err(
            TicketError::Unauthorized,
        ) && *final(event) == *old(event),
        caller == old(event).authority ==> r == Result::<(), TicketError>::Ok(())
            && !final(event).is_active,
        event_fixed_fields_unchanged(*old(event), *final(event)),
        final(event).tickets_sold == old(event).tickets_sold,
        final(event).is_active ==> old(event).is_active,
{
    if event.authority != caller {
        return Err(TicketError::Unauthorized);
    }
    event.is_active = false;
    Ok(())
}

/// Primary sale: issues a ticket record against an event record.
///
/// The preconditions of the sale are checked in order (active, not expired,
/// capacity left) and the first violated one aborts the purchase with its
/// error, leaving the event untouched. On success the new ticket starts with
/// no resales, no accrued royalty and the distribution flag clear, and the
/// event's sold counter increments by exactly 1 — so a sold-out event always
/// rejects the next purchase with `TicketNotAvailable`, and `tickets_sold`
/// can never pass `total_tickets`.
pub fn purchase_ticket(
    event: &mut EventAccount,
    event_key: u64,
    ticket_id: String,
    owner: String,
    price: u64,
    now: i64,
) -> (r: Result<TicketAccount, TicketError>)
    ensures
        match r {
            Ok(t) => {
                &&& purchase_allowed(*old(event), now)
                &&& t.event == event_key
                &&& t.owner == owner
                &&& t.seller@ == Seq::<char>::empty()
                &&& t.ticket_id == ticket_id
                &&& t.purchase_date == now
                &&& t.ticket_price == price
                &&& t.resell_count == 0
                &&& t.accumulated_royalty == 0
                &&& t.royalty_distributed == false
                &&& final(event).tickets_sold == old(event).tickets_sold + 1
                &&& final(event).tickets_sold <= final(event).total_tickets
            },
            Err(e) => {
                &&& !purchase_allowed(*old(event), now)
                &&& e == purchase_error(*old(event), now)
                &&& *final(event) == *old(event)
            },
        },
        event_fixed_fields_unchanged(*old(event), *final(event)),
        final(event).is_active == old(event).is_active,
        event_capacity_ok(*old(event)) ==> event_capacity_ok(*final(event)),
{
    if !event.is_active {
        return Err(TicketError::EventNotActive);
    }
    if event.date <= now {
        return Err(TicketError::EventExpired);
    }
    if event.tickets_sold >= event.total_tickets {
        return Err(TicketError::TicketNotAvailable);
    }
    let ticket = TicketAccount {
        event: event_key,
        owner,
        seller: String::new(),
        ticket_id,
        purchase_date: now,
        ticket_price: price,
        resell_count: 0,
        accumulated_royalty: 0,
        royalty_distributed: false,
    };
    event.tickets_sold = event.tickets_sold + 1;
    Ok(ticket)
}

/// Capacity is a hard ceiling: once an event has sold out, the next purchase
/// is never allowed, and its reported error is `TicketNotAvailable` whenever
/// the activity and cutoff checks pass. Together with the sold-counter
/// clause of `purchase_ticket`, `tickets_sold` can never pass
/// `total_tickets` over any sequence of purchases.
pub proof fn lemma_sold_out_rejected(e: EventAccount, now: i64)
    requires
        e.tickets_sold >= e.total_tickets,
    ensures
        !purchase_allowed(e, now),
        e.is_active && now < e.date ==> purchase_error(e, now)
            == TicketError::TicketNotAvailable,
{
}

/// The royalty accrued by one resale at `new_price` under the event's
/// royalty spec: the floor of `new_price * total percentage / 100`.
pub open spec fn resale_royalty_amount(e: EventAccount, new_price: u64) -> int {
    (new_price * royalty_total(e.royalty@)) / 100
}

/// A resale succeeds exactly when none of its checked arithmetic overflows:
/// the percentage sum, the price-times-percentage product, the accrual, and
/// the resale counter must all fit their types.
pub open spec fn resale_succeeds(t: TicketAccount, e: EventAccount, new_price: u64) -> bool {
    &&& royalty_total(e.royalty@) <= u64::MAX
    &&& new_price * royalty_total(e.royalty@) <= u64::MAX
    &&& t.accumulated_royalty + resale_royalty_amount(e, new_price) <= u64::MAX
    &&& t.resell_count < u8::MAX
}

/// Peer-to-peer resale: transfers ticket ownership, snapshots the ticket's
/// prior state into a history record, and accrues royalty.
///
/// The returned history record captures the ticket exactly as it stood
/// before the resale: its seller, its owner (who is the seller of this
/// resale, hence recorded as the history's `buyer`-to-be counterpart), its
/// purchase date and its price. The store addresses that record by
/// `(ticket, resale index before this resale)`, so history is append-only.
///
/// The royalty spec is parsed here, best-effort with defaults; a malformed
/// spec never aborts a resale. The only failure is `MathOverflow`, on which
/// the ticket is left untouched. On success `resell_count` increments by
/// exactly 1 and `accumulated_royalty` grows by the accrued amount; the
/// ticket's event reference, its identifier and its distribution flag are
/// immutable here.
pub fn resell_ticket(
    ticket: &mut TicketAccount,
    event: &EventAccount,
    ticket_key: u64,
    seller: String,
    buyer: String,
    new_price: u64,
    now: i64,
) -> (r: Result<TicketSellHistory, TicketError>)
    ensures
        match r {
            Ok(h) => {
                &&& resale_succeeds(*old(ticket), *event, new_price)
                &&& h.ticket == ticket_key
                &&& h.seller == old(ticket).seller
                &&& h.buyer == old(ticket).owner
                &&& h.purchase_date == old(ticket).purchase_date
                &&& h.ticket_price == old(ticket).ticket_price
                &&& final(ticket).owner == buyer
                &&& final(ticket).seller == seller
                &&& final(ticket).purchase_date == now
                &&& final(ticket).ticket_price == new_price
                &&& final(ticket).accumulated_royalty == old(ticket).accumulated_royalty
                    + resale_royalty_amount(*event, new_price)
                &&& final(ticket).resell_count == old(ticket).resell_count + 1
                &&& final(ticket).event == old(ticket).event
                &&& final(ticket).ticket_id == old(ticket).ticket_id
                &&& final(ticket).royalty_distributed == old(ticket).royalty_distributed
            },
            Err(e) => {
                &&& !resale_succeeds(*old(ticket), *event, new_price)
                &&& e == TicketError::MathOverflow
                &&& *final(ticket) == *old(ticket)
            },
        },
        final(ticket).accumulated_royalty >= old(ticket).accumulated_royalty,
{
    let shares = parse_royalty_shares(event.royalty.as_str());
    let sum_ab = match shares.0.checked_add(shares.1) {
        Some(v) => v,
        None => {
            return Err(TicketError::MathOverflow);
        },
    };
    let total = match sum_ab.checked_add(shares.2) {
        Some(v) => v,
        None => {
            return Err(TicketError::MathOverflow);
        },
    };
    let raw = match new_price.checked_mul(total) {
        Some(v) => v,
        None => {
            return Err(TicketError::MathOverflow);
        },
    };
    let current_royalty = raw / 100;
    let new_accumulated = match ticket.accumulated_royalty.checked_add(current_royalty) {
        Some(v) => v,
        None => {
            return Err(TicketError::MathOverflow);
        },
    };
    let new_count = match ticket.resell_count.checked_add(1) {
        Some(v) => v,
        None => {
            return Err(TicketError::MathOverflow);
        },
    };
    let history = TicketSellHistory {
        ticket: ticket_key,
        seller: ticket.seller.clone(),
        buyer: ticket.owner.clone(),
        purchase_date: ticket.purchase_date,
        ticket_price: ticket.ticket_price,
    };
    ticket.owner = buyer;
    ticket.seller = seller;
    ticket.purchase_date = now;
    ticket.ticket_price = new_price;
    ticket.accumulated_royalty = new_accumulated;
    ticket.resell_count = new_count;
    Ok(history)
}

/// One computed payout: how much of the accumulated royalty goes to each of
/// the three beneficiaries of the split. Issuing the three native-currency
/// transfers is the host's job; a failed transfer aborts the enclosing
/// atomic operation, mutations included.
pub struct RoyaltyPayout {
    /// Amount for the primary (ticketmaster) beneficiary.
    pub ticketmaster: u64,
    /// Amount for the team beneficiary.
    pub team: u64,
    /// Amount for the secondary-platform (solpass) beneficiary; absorbs the
    /// rounding remainder so the three amounts sum exactly to the total.
    pub solpass: u64,
}

/// A distribution succeeds exactly when the percentage sum fits and is not
/// zero (a zero split would divide by zero) and both quotient products fit.
pub open spec fn distribution_succeeds(t: TicketAccount, e: EventAccount) -> bool {
    &&& royalty_total(e.royalty@) <= u64::MAX
    &&& royalty_total(e.royalty@) > 0
    &&& t.accumulated_royalty * royalty_shares(e.royalty@).0 <= u64::MAX
    &&& t.accumulated_royalty * royalty_shares(e.royalty@).1 <= u64::MAX
}

/// The floors of two shares of `t`, in proportions `pa` and `pb` out of `s`,
/// never exceed `t` itself — so the remainder-absorbing third share is never
/// negative.
pub proof fn lemma_two_shares_fit(t: int, pa: int, pb: int, s: int)
    requires
        t >= 0,
        pa >= 0,
        pb >= 0,
        pa + pb <= s,
        s > 0,
    ensures
        (t * pa) / s + (t * pb) / s <= t,
{
    let da = (t * pa) / s;
    let db = (t * pb) / s;
    lemma_fundamental_div_mod(t * pa, s);
    lemma_fundamental_div_mod(t * pb, s);
    lemma_mod_bound(t * pa, s);
    lemma_mod_bound(t * pb, s);
    assert(s * da <= t * pa);
    assert(s * db <= t * pb);
    assert(s * (da + db) <= t * (pa + pb)) by (nonlinear_arith)
        requires
            s * da <= t * pa,
            s * db <= t * pb,
    ;
    assert(t * (pa + pb) <= t * s) by (nonlinear_arith)
        requires
            t >= 0,
            pa + pb <= s,
    ;
    assert(da + db <= t) by (nonlinear_arith)
        requires
            s * (da + db) <= t * s,
            s > 0,
    ;
}

/// Distribution is repeatable: nothing guards on `royalty_distributed` and
/// the accumulated royalty is not reset, so after one successful
/// distribution the ticket (now flagged, otherwise unchanged) satisfies the
/// success condition again and a second call computes exactly the same
/// three amounts. This pins the observed behaviour of the design: the same
/// accrued total can be paid out twice.
pub proof fn lemma_distribution_repeatable(t: TicketAccount, e: EventAccount)
    requires
        distribution_succeeds(t, e),
    ensures
        ({
            let t1 = (TicketAccount { royalty_distributed: true, ..t });
            let shares = royalty_shares(e.royalty@);
            let s = royalty_total(e.royalty@);
            &&& distribution_succeeds(t1, e)
            &&& t1.accumulated_royalty == t.accumulated_royalty
            &&& (t1.accumulated_royalty * shares.0) / s == (t.accumulated_royalty * shares.0)
                / s
            &&& (t1.accumulated_royalty * shares.1) / s == (t.accumulated_royalty * shares.1)
                / s
        }),
{
}

/// Splits the accumulated royalty three ways and marks the ticket
/// distributed.
///
/// The royalty spec is re-parsed here, independently of any earlier resale:
/// a spec mutated between resale and distribution changes the split actually
/// paid. The first two amounts are floors of proportional shares; the third
/// absorbs the rounding remainder, so the three amounts sum exactly to the
/// accumulated total. A percentage sum of zero would divide by zero and is
/// rejected as `MathOverflow`, as is any overflowing product or sum.
///
/// Nothing here reads `royalty_distributed` as a guard, and the accumulated
/// royalty is not reset: a second call on an unchanged ticket computes the
/// same payout again. That repeatability is the pinned behaviour of the
/// design, deliberately left visible rather than silently patched.
pub fn distribute_royalty(ticket: &mut TicketAccount, event: &EventAccount) -> (r: Result<
    RoyaltyPayout,
    TicketError,
>)
    ensures
        match r {
            Ok(p) => {
                let t0 = old(ticket).accumulated_royalty;
                let shares = royalty_shares(event.royalty@);
                let s = royalty_total(event.royalty@);
                &&& distribution_succeeds(*old(ticket), *event)
                &&& p.ticketmaster == (t0 * shares.0) / s
                &&& p.team == (t0 * shares.1) / s
                &&& p.solpass == t0 - p.ticketmaster - p.team
                &&& p.ticketmaster + p.team + p.solpass == t0
                &&& *final(ticket) == (TicketAccount {
                    royalty_distributed: true,
                    ..*old(ticket)
                })
            },
            Err(e) => {
                &&& !distribution_succeeds(*old(ticket), *event)
                &&& e == TicketError::MathOverflow
                &&& *final(ticket) == *old(ticket)
            },
        },
        final(ticket).accumulated_royalty == old(ticket).accumulated_royalty,
{
    let shares = parse_royalty_shares(event.royalty.as_str());
    let total_amount = ticket.accumulated_royalty;
    let sum_ab = match shares.0.checked_add(shares.1) {
        Some(v) => v,
        None => {
            return Err(TicketError::MathOverflow);
        },
    };
    let s = match sum_ab.checked_add(shares.2) {
        Some(v) => v,
        None => {
            return Err(TicketError::MathOverflow);
        },
    };
    if s == 0 {
        return Err(TicketError::MathOverflow);
    }
    let prod_a = match total_amount.checked_mul(shares.0) {
        Some(v) => v,
        None => {
            return Err(TicketError::MathOverflow);
        },
    };
    let amount_a = prod_a / s;
    let prod_b = match total_amount.checked_mul(shares.1) {
        Some(v) => v,
        None => {
            return Err(TicketError::MathOverflow);
        },
    };
    let amount_b = prod_b / s;
    proof {
        lemma_two_shares_fit(
            total_amount as int,
            shares.0 as int,
            shares.1 as int,
            s as int,
        );
    }
    let amount_c = total_amount - amount_a - amount_b;
    ticket.royalty_distributed = true;
    Ok(RoyaltyPayout { ticketmaster: amount_a, team: amount_b, solpass: amount_c })
}

} // verus!
