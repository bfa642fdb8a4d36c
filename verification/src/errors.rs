//! The enumerable reasons for which an operation is rejected.
//!
//! Every failure aborts the whole operation with no partial mutation; the
//! variant tells the caller exactly why, without free-text parsing.

use vstd::prelude::*;

verus! {

/// Why an operation was rejected.
#[derive(Clone, Copy, Debug, PartialEq, Eq, Structural)]
pub enum NileError {
    /// A sub-score was outside `0..=100`.
    ScoreOutOfRange,
    /// An impact score was outside `-100..=100`.
    ImpactOutOfRange,
    /// The caller is not the admin identity recorded at bootstrap.
    UnauthorizedAgent,
    /// The acting agent's record is not active.
    AgentSuspended,
    /// The report already reached a terminal state; its counters are frozen.
    ReportAlreadyFinalized,
    /// A vote marker for this (report, agent) pair already exists.
    AlreadyVoted,
    /// A program name was longer than 64 characters.
    NameTooLong,
    /// An event type was longer than 32 characters.
    EventTypeTooLong,
    /// A headline was longer than 200 characters.
    HeadlineTooLong,
    /// A details reference was longer than 200 characters.
    DetailsTooLong,
    /// The caller is the report's submitter, whose stance is already counted.
    SelfVoteNotAllowed,
    /// A counter increment would overflow its representation.
    Overflow,
}

} // verus!
