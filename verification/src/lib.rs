//! A ticket marketplace ledger: event creation, primary ticket sale,
//! peer-to-peer resale with royalty accrual, and a three-way royalty payout.
//!
//! The library is organised as pure, verified state transitions over plain
//! record values (`ops`), a royalty-specification parser (`royalty`), and an
//! in-memory record store with deterministic composite-key addressing
//! (`market`). The host environment is expected to supply atomicity: an
//! operation either commits all of its record mutations or none of them.

pub mod errors;
pub mod market;
pub mod ops;
pub mod records;
pub mod royalty;
