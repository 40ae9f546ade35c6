use vstd::prelude::*;

use crate::errors::TicketError;
use crate::ops;
use crate::ops::RoyaltyPayout;
use crate::ops::distribution_succeeds;
use crate::ops::purchase_allowed;
use crate::ops::purchase_error;
use crate::ops::resale_royalty_amount;
use crate::ops::resale_succeeds;
use crate::records::EventAccount;
use crate::records::TicketAccount;
use crate::records::TicketSellHistory;
use crate::records::event_capacity_ok;
use crate::records::event_fixed_fields_unchanged;
use crate::records::same_event_key;
use crate::records::same_ticket_key;
use crate::royalty::royalty_shares;
use crate::royalty::royalty_total;

verus! {

/// An in-memory record store with deterministic composite-key addressing:
/// the standalone counterpart of the host ledger's create-or-fail /
/// mutate-in-place storage.
///
/// A record's address is its index in its vector (records are never
/// deleted, so indices are stable), while creation checks the composite
/// business key — `(authority, event_id)` for events, `(event, ticket_id)`
/// for tickets, `(ticket, resale index)` for history records — and fails
/// with `DuplicateRecord` instead of overwriting. History entries carry the
/// resale index they were filed under beside the record itself.
pub struct Marketplace {
    /// Event records; an event's address is its index here.
    pub events: Vec<EventAccount>,
    /// Ticket records; a ticket's address is its index here.
    pub tickets: Vec<TicketAccount>,
    /// Resale history entries `(resale index, record)`, append-only.
    pub history: Vec<(u8, TicketSellHistory)>,
}

impl Marketplace {
    /// Well-formedness: every event respects its capacity, all composite
    /// keys are unique, and every cross-record reference points at an
    /// existing record. Every operation preserves this invariant, so it
    /// holds after any sequence of operations on an initially empty store.
    pub open spec fn wf(self) -> bool {
        &&& forall|i: int|
            0 <= i < self.events@.len() ==> event_capacity_ok(#[trigger] self.events@[i])
        &&& forall|i: int, j: int|
            #![trigger self.events@[i], self.events@[j]]
            0 <= i < j < self.events@.len() ==> !same_event_key(
                self.events@[i],
                self.events@[j],
            )
        &&& forall|i: int|
            0 <= i < self.tickets@.len() ==> (#[trigger] self.tickets@[i]).event
                < self.events@.len()
        &&& forall|i: int, j: int|
            #![trigger self.tickets@[i], self.tickets@[j]]
            0 <= i < j < self.tickets@.len() ==> !same_ticket_key(
                self.tickets@[i],
                self.tickets@[j],
            )
        &&& forall|i: int|
            0 <= i < self.history@.len() ==> (#[trigger] self.history@[i]).1.ticket
                < self.tickets@.len()
        &&& forall|i: int, j: int|
            #![trigger self.history@[i], self.history@[j]]
            0 <= i < j < self.history@.len() ==> !(self.history@[i].1.ticket
                == self.history@[j].1.ticket && self.history@[i].0 == self.history@[j].0)
    }

    /// Some event record occupies the address `(authority, event_id)`.
    pub open spec fn has_event_key(self, authority: u64, event_id: Seq<char>) -> bool {
        exists|i: int|
            0 <= i < self.events@.len() && (#[trigger] self.events@[i]).authority == authority
                && self.events@[i].event_id@ == event_id
    }

    /// Some ticket record occupies the address `(event, ticket_id)`.
    pub open spec fn has_ticket_key(self, event: u64, ticket_id: Seq<char>) -> bool {
        exists|i: int|
            0 <= i < self.tickets@.len() && (#[trigger] self.tickets@[i]).event == event
                && self.tickets@[i].ticket_id@ == ticket_id
    }

    /// Some history record occupies the address `(ticket, resale index)`.
    pub open spec fn has_history_key(self, ticket: u64, index: u8) -> bool {
        exists|i: int|
            0 <= i < self.history@.len() && (#[trigger] self.history@[i]).1.ticket == ticket
                && self.history@[i].0 == index
    }

    /// In a well-formed store no event has ever oversold: since `new`
    /// establishes `wf` and every operation preserves it, `tickets_sold`
    /// never exceeds `total_tickets` after any sequence of operations.
    pub proof fn lemma_capacity_holds(self, i: int)
        requires
            self.wf(),
            0 <= i < self.events@.len(),
        ensures
            self.events@[i].tickets_sold <= self.events@[i].total_tickets,
    {
    }

    /// An empty store, trivially well-formed.
    pub fn new() -> (m: Marketplace)
        ensures
            m.wf(),
            m.events@.len() == 0,
            m.tickets@.len() == 0,
            m.history@.len() == 0,
    {
        Marketplace { events: Vec::new(), tickets: Vec::new(), history: Vec::new() }
    }

    /// Linear scan for the event at `(authority, event_id)`.
    fn find_event(&self, authority: u64, event_id: &String) -> (r: Option<usize>)
        ensures
            match r {
                Some(i) => i < self.events@.len() && self.events@[i as int].authority == authority
                    && self.events@[i as int].event_id@ == event_id@,
                None => !self.has_event_key(authority, event_id@),
            },
    {
        let n = self.events.len();
        let mut i: usize = 0;
        while i < n
            invariant
                i <= n,
                n == self.events@.len(),
                forall|k: int|
                    0 <= k < i ==> !((#[trigger] self.events@[k]).authority == authority
                        && self.events@[k].event_id@ == event_id@),
            decreases n - i,
        {
            if self.events[i].authority == authority && self.events[i].event_id == *event_id {
                return Some(i);
            }
            i = i + 1;
        }
        None
    }

    /// Linear scan for the ticket at `(event, ticket_id)`.
    fn find_ticket(&self, event: u64, ticket_id: &String) -> (r: Option<usize>)
        ensures
            match r {
                Some(i) => i < self.tickets@.len() && self.tickets@[i as int].event == event
                    && self.tickets@[i as int].ticket_id@ == ticket_id@,
                None => !self.has_ticket_key(event, ticket_id@),
            },
    {
        let n = self.tickets.len();
        let mut i: usize = 0;
        while i < n
            invariant
                i <= n,
                n == self.tickets@.len(),
                forall|k: int|
                    0 <= k < i ==> !((#[trigger] self.tickets@[k]).event == event
                        && self.tickets@[k].ticket_id@ == ticket_id@),
            decreases n - i,
        {
            if self.tickets[i].event == event && self.tickets[i].ticket_id == *ticket_id {
                return Some(i);
            }
            i = i + 1;
        }
        None
    }

    /// Whether a history record is already filed under `(ticket, index)`.
    fn history_key_taken(&self, ticket: u64, index: u8) -> (r: bool)
        ensures
            r == self.has_history_key(ticket, index),
    {
        let n = self.history.len();
        let mut i: usize = 0;
        while i < n
            invariant
                i <= n,
                n == self.history@.len(),
                forall|k: int|
                    0 <= k < i ==> !((#[trigger] self.history@[k]).1.ticket == ticket
                        && self.history@[k].0 == index),
            decreases n - i,
        {
            if self.history[i].1.ticket == ticket && self.history[i].0 == index {
                return true;
            }
            i = i + 1;
        }
        false
    }

    /// Creates an event record at `(authority, event_id)`, or fails with
    /// `DuplicateRecord` if that address is already occupied. On success the
    /// new record's address is returned and nothing else changes.
    pub fn create_event(
        &mut self,
        authority: u64,
        event_id: String,
        name: String,
        description: String,
        royalty: String,
        venue: String,
        date: i64,
        total_tickets: u64,
        ticket_price: u64,
    ) -> (r: Result<u64, TicketError>)
        requires
            old(self).wf(),
            old(self).events@.len() < u64::MAX,
        ensures
            final(self).wf(),
            final(self).tickets@ == old(self).tickets@,
            final(self).history@ == old(self).history@,
            match r {
                Ok(addr) => ({
                    let e = final(self).events@[addr as int];
                    &&& !old(self).has_event_key(authority, event_id@)
                    &&& addr == old(self).events@.len()
                    &&& final(self).events@ =~= old(self).events@.push(e)
                    &&& e.authority == authority
                    &&& e.event_id == event_id
                    &&& e.name == name
                    &&& e.description == description
                    &&& e.royalty == royalty
                    &&& e.venue == venue
                    &&& e.date == date
                    &&& e.total_tickets == total_tickets
                    &&& e.tickets_sold == 0
                    &&& e.ticket_price == ticket_price
                    &&& e.is_active == true
                }),
                Err(err) => {
                    &&& err == TicketError::DuplicateRecord
                    &&& old(self).has_event_key(authority, event_id@)
                    &&& *final(self) == *old(self)
                },
            },
    {
        if self.find_event(authority, &event_id).is_some() {
            return Err(TicketError::DuplicateRecord);
        }
        let addr = self.events.len() as u64;
        let record = ops::create_event(
            authority,
            event_id,
            name,
            description,
            royalty,
            venue,
            date,
            total_tickets,
            ticket_price,
        );
        self.events.push(record);
        Ok(addr)
    }

    /// Primary sale against the event at `event_addr`: creates a ticket
    /// record at `(event_addr, ticket_id)` or fails. An occupied ticket
    /// address fails with `DuplicateRecord` before the sale checks run, as
    /// the host's create-or-fail would; then the sale checks of
    /// `ops::purchase_ticket` apply in order. On success the new ticket's
    /// address is returned and the event's sold counter has grown by 1.
    pub fn purchase_ticket(
        &mut self,
        event_addr: u64,
        ticket_id: String,
        owner: String,
        price: u64,
        now: i64,
    ) -> (r: Result<u64, TicketError>)
        requires
            old(self).wf(),
            event_addr < old(self).events@.len(),
        ensures
            final(self).wf(),
            final(self).history@ == old(self).history@,
            match r {
                Ok(ticket_addr) => ({
                    let e0 = old(self).events@[event_addr as int];
                    let e1 = final(self).events@[event_addr as int];
                    let t = final(self).tickets@[ticket_addr as int];
                    &&& !old(self).has_ticket_key(event_addr, ticket_id@)
                    &&& purchase_allowed(e0, now)
                    &&& ticket_addr == old(self).tickets@.len()
                    &&& final(self).tickets@ =~= old(self).tickets@.push(t)
                    &&& t.event == event_addr
                    &&& t.owner == owner
                    &&& t.ticket_id == ticket_id
                    &&& t.purchase_date == now
                    &&& t.ticket_price == price
                    &&& t.resell_count == 0
                    &&& t.accumulated_royalty == 0
                    &&& t.royalty_distributed == false
                    &&& final(self).events@ =~= old(self).events@.update(event_addr as int, e1)
                    &&& e1.tickets_sold == e0.tickets_sold + 1
                    &&& e1.tickets_sold <= e1.total_tickets
                    &&& event_fixed_fields_unchanged(e0, e1)
                    &&& e1.is_active == e0.is_active
                }),
                Err(err) => {
                    &&& final(self).events@ == old(self).events@
                    &&& final(self).tickets@ == old(self).tickets@
                    &&& (err == TicketError::DuplicateRecord <==> old(self).has_ticket_key(
                        event_addr,
                        ticket_id@,
                    ))
                    &&& (err != TicketError::DuplicateRecord ==> !purchase_allowed(
                        old(self).events@[event_addr as int],
                        now,
                    ) && err == purchase_error(old(self).events@[event_addr as int], now))
                },
            },
    {
        if self.find_ticket(event_addr, &ticket_id).is_some() {
            return Err(TicketError::DuplicateRecord);
        }
        let n_events = self.events.len();
        proof {
            assert((event_addr as int) < (n_events as int));
        }
        let idx = event_addr as usize;
        let event = &mut self.events[idx];
        match ops::purchase_ticket(event, event_addr, ticket_id, owner, price, now) {
            Ok(ticket) => {
                let ticket_addr = self.tickets.len() as u64;
                self.tickets.push(ticket);
                proof {
                    assert(self.events@ =~= old(self).events@.update(
                        event_addr as int,
                        self.events@[event_addr as int],
                    ));
                }
                Ok(ticket_addr)
            },
            Err(err) => {
                proof {
                    assert(self.events@ =~= old(self).events@);
                }
                Err(err)
            },
        }
    }

    /// Deactivates the event at `event_addr` on behalf of `caller`. An
    /// unauthorized caller (anyone but the event's creator) is rejected with
    /// `Unauthorized` and the store is left unchanged.
    pub fn deactivate_event(&mut self, caller: u64, event_addr: u64) -> (r: Result<
        (),
        TicketError,
    >)
        requires
            old(self).wf(),
            event_addr < old(self).events@.len(),
        ensures
            final(self).wf(),
            final(self).tickets@ == old(self).tickets@,
            final(self).history@ == old(self).history@,
            match r {
                Ok(()) => ({
                    let e0 = old(self).events@[event_addr as int];
                    let e1 = final(self).events@[event_addr as int];
                    &&& caller == e0.authority
                    &&& final(self).events@ =~= old(self).events@.update(event_addr as int, e1)
                    &&& !e1.is_active
                    &&& event_fixed_fields_unchanged(e0, e1)
                    &&& e1.tickets_sold == e0.tickets_sold
                }),
                Err(err) => {
                    &&& err == TicketError::Unauthorized
                    &&& caller != old(self).events@[event_addr as int].authority
                    &&& final(self).events@ == old(self).events@
                },
            },
    {
        let n_events = self.events.len();
        proof {
            assert((event_addr as int) < (n_events as int));
        }
        let idx = event_addr as usize;
        let event = &mut self.events[idx];
        match ops::deactivate_event(event, caller) {
            Ok(()) => {
                proof {
                    assert(self.events@ =~= old(self).events@.update(
                        event_addr as int,
                        self.events@[event_addr as int],
                    ));
                }
                Ok(())
            },
            Err(err) => {
                proof {
                    assert(self.events@ =~= old(self).events@);
                }
                Err(err)
            },
        }
    }

    /// Resale of the ticket at `ticket_addr`. Files the pre-resale snapshot
    /// under `(ticket_addr, resale index)` — an occupied index fails with
    /// `DuplicateRecord` before anything changes — then applies
    /// `ops::resell_ticket` against the ticket's owning event. On success
    /// the history has exactly one new entry and the ticket's counter and
    /// accrual have advanced; on failure nothing changed.
    pub fn resell_ticket(
        &mut self,
        ticket_addr: u64,
        seller: String,
        buyer: String,
        new_price: u64,
        now: i64,
    ) -> (r: Result<(), TicketError>)
        requires
            old(self).wf(),
            ticket_addr < old(self).tickets@.len(),
        ensures
            final(self).wf(),
            final(self).events@ == old(self).events@,
            match r {
                Ok(()) => ({
                    let t0 = old(self).tickets@[ticket_addr as int];
                    let t1 = final(self).tickets@[ticket_addr as int];
                    let e = old(self).events@[t0.event as int];
                    let entry = final(self).history@.last();
                    &&& !old(self).has_history_key(ticket_addr, t0.resell_count)
                    &&& resale_succeeds(t0, e, new_price)
                    &&& final(self).tickets@ =~= old(self).tickets@.update(ticket_addr as int, t1)
                    &&& t1.owner == buyer
                    &&& t1.seller == seller
                    &&& t1.purchase_date == now
                    &&& t1.ticket_price == new_price
                    &&& t1.accumulated_royalty == t0.accumulated_royalty + resale_royalty_amount(
                        e,
                        new_price,
                    )
                    &&& t1.resell_count == t0.resell_count + 1
                    &&& t1.event == t0.event
                    &&& t1.ticket_id == t0.ticket_id
                    &&& t1.royalty_distributed == t0.royalty_distributed
                    &&& final(self).history@ =~= old(self).history@.push(entry)
                    &&& entry.0 == t0.resell_count
                    &&& entry.1.ticket == ticket_addr
                    &&& entry.1.seller == t0.seller
                    &&& entry.1.buyer == t0.owner
                    &&& entry.1.purchase_date == t0.purchase_date
                    &&& entry.1.ticket_price == t0.ticket_price
                }),
                Err(err) => ({
                    let t0 = old(self).tickets@[ticket_addr as int];
                    let e = old(self).events@[t0.event as int];
                    &&& final(self).tickets@ == old(self).tickets@
                    &&& final(self).history@ == old(self).history@
                    &&& (err == TicketError::DuplicateRecord <==> old(self).has_history_key(
                        ticket_addr,
                        t0.resell_count,
                    ))
                    &&& (err != TicketError::DuplicateRecord ==> err == TicketError::MathOverflow
                        && !resale_succeeds(t0, e, new_price))
                }),
            },
    {
        let n_tickets = self.tickets.len();
        proof {
            assert((ticket_addr as int) < (n_tickets as int));
        }
        let tidx = ticket_addr as usize;
        let index = self.tickets[tidx].resell_count;
        if self.history_key_taken(ticket_addr, index) {
            return Err(TicketError::DuplicateRecord);
        }
        let n_events = self.events.len();
        proof {
            assert((self.tickets@[tidx as int].event as int) < (n_events as int));
        }
        let eidx = self.tickets[tidx].event as usize;
        let event = &self.events[eidx];
        let ticket = &mut self.tickets[tidx];
        match ops::resell_ticket(ticket, event, ticket_addr, seller, buyer, new_price, now) {
            Ok(h) => {
                self.history.push((index, h));
                proof {
                    assert(self.tickets@ =~= old(self).tickets@.update(
                        ticket_addr as int,
                        self.tickets@[ticket_addr as int],
                    ));
                }
                Ok(())
            },
            Err(err) => {
                proof {
                    assert(self.tickets@ =~= old(self).tickets@);
                }
                Err(err)
            },
        }
    }

    /// Distribution for the ticket at `ticket_addr`: computes the three-way
    /// payout from the accumulated royalty under the owning event's current
    /// royalty spec and marks the ticket distributed. The returned payout is
    /// what the host must transfer; the accumulated royalty is not reset and
    /// the flag is no guard, so the operation is repeatable by design.
    pub fn distribute_royalty(&mut self, ticket_addr: u64) -> (r: Result<
        RoyaltyPayout,
        TicketError,
    >)
        requires
            old(self).wf(),
            ticket_addr < old(self).tickets@.len(),
        ensures
            final(self).wf(),
            final(self).events@ == old(self).events@,
            final(self).history@ == old(self).history@,
            match r {
                Ok(p) => ({
                    let t0 = old(self).tickets@[ticket_addr as int];
                    let t1 = final(self).tickets@[ticket_addr as int];
                    let e = old(self).events@[t0.event as int];
                    let shares = royalty_shares(e.royalty@);
                    let s = royalty_total(e.royalty@);
                    &&& distribution_succeeds(t0, e)
                    &&& p.ticketmaster == (t0.accumulated_royalty * shares.0) / s
                    &&& p.team == (t0.accumulated_royalty * shares.1) / s
                    &&& p.solpass == t0.accumulated_royalty - p.ticketmaster - p.team
                    &&& p.ticketmaster + p.team + p.solpass == t0.accumulated_royalty
                    &&& final(self).tickets@ =~= old(self).tickets@.update(ticket_addr as int, t1)
                    &&& t1 == (TicketAccount { royalty_distributed: true, ..t0 })
                }),
                Err(err) => ({
                    let t0 = old(self).tickets@[ticket_addr as int];
                    let e = old(self).events@[t0.event as int];
                    &&& err == TicketError::MathOverflow
                    &&& !distribution_succeeds(t0, e)
                    &&& final(self).tickets@ == old(self).tickets@
                }),
            },
    {
        let n_tickets = self.tickets.len();
        let n_events = self.events.len();
        proof {
            assert((ticket_addr as int) < (n_tickets as int));
        }
        let tidx = ticket_addr as usize;
        proof {
            assert((self.tickets@[tidx as int].event as int) < (n_events as int));
        }
        let eidx = self.tickets[tidx].event as usize;
        let event = &self.events[eidx];
        let ticket = &mut self.tickets[tidx];
        match ops::distribute_royalty(ticket, event) {
            Ok(p) => {
                proof {
                    assert(self.tickets@ =~= old(self).tickets@.update(
                        ticket_addr as int,
                        self.tickets@[ticket_addr as int],
                    ));
                }
                Ok(p)
            },
            Err(err) => {
                proof {
                    assert(self.tickets@ =~= old(self).tickets@);
                }
                Err(err)
            },
        }
    }
}

} // verus!
