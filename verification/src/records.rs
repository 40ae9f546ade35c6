use vstd::prelude::*;

verus! {

/// An event record. Created once, mutated only by deactivation and by the
/// tickets-sold counter. Addressed by the composite key
/// `(authority, event_id)`.
pub struct EventAccount {
    /// The event creator's identity (a ledger address).
    pub authority: u64,
    /// Business identifier, unique per creator.
    pub event_id: String,
    /// Display name.
    pub name: String,
    /// Display description.
    pub description: String,
    /// Royalty-split specification: a comma-separated percentage triple,
    /// e.g. `"10,5,5"`. Malformed specs are tolerated and fall back to
    /// defaults at parse time; see `royalty`.
    pub royalty: String,
    /// Display venue.
    pub venue: String,
    /// Scheduled date as a timestamp; also the sale cutoff.
    pub date: i64,
    /// Total ticket capacity.
    pub total_tickets: u64,
    /// Tickets sold so far; never exceeds `total_tickets`.
    pub tickets_sold: u64,
    /// Base ticket price.
    pub ticket_price: u64,
    /// Active flag; only ever transitions true to false.
    pub is_active: bool,
}

/// A ticket record. Created once at primary sale, mutated on every resale and
/// on royalty distribution. Addressed by `(event, ticket_id)`.
pub struct TicketAccount {
    /// Address of the owning event record; immutable after issuance.
    pub event: u64,
    /// Current owner identity.
    pub owner: String,
    /// Current seller identity.
    pub seller: String,
    /// Business identifier, unique within the event.
    pub ticket_id: String,
    /// Timestamp of the most recent purchase or resale.
    pub purchase_date: i64,
    /// Current price.
    pub ticket_price: u64,
    /// Number of completed resales; starts at 0 and increments by exactly 1
    /// per resale.
    pub resell_count: u8,
    /// Accumulated, not yet distributed royalty.
    pub accumulated_royalty: u64,
    /// Set by royalty distribution. Never read as a guard: distribution is
    /// deliberately repeatable (pinned behaviour of the design).
    pub royalty_distributed: bool,
}

/// A resale history record: a snapshot of a ticket's state just before one
/// resale. Created once per resale, addressed by `(ticket, resale index)`,
/// never mutated or deleted.
pub struct TicketSellHistory {
    /// Address of the ticket record this history entry belongs to.
    pub ticket: u64,
    /// The seller recorded on the ticket before the resale.
    pub seller: String,
    /// The owner recorded on the ticket before the resale (who is the party
    /// selling in this resale).
    pub buyer: String,
    /// The ticket's purchase date before the resale.
    pub purchase_date: i64,
    /// The ticket's price before the resale.
    pub ticket_price: u64,
}

/// Capacity invariant of an event record: tickets sold never exceed capacity.
pub open spec fn event_capacity_ok(e: EventAccount) -> bool {
    e.tickets_sold <= e.total_tickets
}

/// The two events occupy the same deterministic address `(authority, event_id)`.
pub open spec fn same_event_key(a: EventAccount, b: EventAccount) -> bool {
    a.authority == b.authority && a.event_id@ == b.event_id@
}

/// The two tickets occupy the same deterministic address `(event, ticket_id)`.
pub open spec fn same_ticket_key(a: TicketAccount, b: TicketAccount) -> bool {
    a.event == b.event && a.ticket_id@ == b.ticket_id@
}

/// All fields of `b` equal those of `a` except possibly `tickets_sold` and
/// `is_active`: the only event fields any operation after creation may touch.
pub open spec fn event_fixed_fields_unchanged(a: EventAccount, b: EventAccount) -> bool {
    &&& b.authority == a.authority
    &&& b.event_id@ == a.event_id@
    &&& b.name@ == a.name@
    &&& b.description@ == a.description@
    &&& b.royalty@ == a.royalty@
    &&& b.venue@ == a.venue@
    &&& b.date == a.date
    &&& b.total_tickets == a.total_tickets
    &&& b.ticket_price == a.ticket_price
}

} // verus!
