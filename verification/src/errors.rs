use vstd::prelude::*;

verus! {

/// Failure modes of the marketplace operations. Every failure is terminal for
/// the current operation: nothing is retried and nothing is partially applied.
#[derive(Clone, Copy, Debug, PartialEq, Eq, Structural)]
pub enum TicketError {
    /// The caller is not allowed to perform this action.
    Unauthorized,
    /// The event's scheduled date has passed (the date acts as the sale cutoff).
    EventExpired,
    /// The event has been deactivated.
    EventNotActive,
    /// A checked arithmetic operation overflowed (or a percentage split summed
    /// to zero, which would otherwise divide by zero).
    MathOverflow,
    /// The event has no remaining ticket capacity.
    TicketNotAvailable,
    /// Record creation at an already-occupied address.
    DuplicateRecord,
}

} // verus!
