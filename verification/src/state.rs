//! The persisted records of the registry.
//!
//! Identities (the admin, agents, programs, reports) are the keys under which
//! the surrounding keyed-storage substrate files these records; the substrate
//! authenticates callers and supplies timestamps, so here an identity is a
//! plain number and a timestamp a plain signed integer. Each record carries a
//! well-formedness predicate that its constructor establishes and every
//! operation preserves.

use vstd::prelude::*;
use crate::scoring::{Grade, total_of, grade_of};

verus! {

/// The process-wide singleton: admin identity, agent population, and global
/// submission totals. Counts never decrease; there is no deauthorization path.
#[derive(Clone, Copy, Debug, PartialEq, Eq, Structural)]
pub struct NileAuthority {
    pub admin: u64,
    pub agent_count: u32,
    pub total_scores_submitted: u64,
    pub total_reports: u64,
}

/// One record per authorized agent: activity flag, cumulative statistics, and
/// reputation points. All counters are monotonically non-decreasing.
#[derive(Clone, Copy, Debug, PartialEq, Eq, Structural)]
pub struct AgentProfile {
    pub agent_address: u64,
    pub authorized_by: u64,
    pub is_active: bool,
    pub total_scores: u64,
    pub total_reports: u64,
    pub total_votes: u64,
    pub points: u64,
    pub authorized_at: i64,
}

/// One record per tracked program: the four latest sub-scores, the derived
/// total and grade, and scoring metadata.
#[derive(Clone, Debug)]
pub struct ProgramProfile {
    pub program_address: u64,
    pub name: String,
    pub registrant: u64,
    pub name_score: u8,
    pub image_score: u8,
    pub likeness_score: u8,
    pub essence_score: u8,
    pub total_score: u8,
    pub grade: Grade,
    pub score_count: u32,
    pub last_scored_at: i64,
    pub registered_at: i64,
    pub details_uri: String,
}

impl ProgramProfile {
    /// The profile's invariant: fields within their declared bounds, and the
    /// total and grade are exactly what the aggregator derives from the
    /// current four sub-scores.
    pub open spec fn wf(self) -> bool {
        &&& self.name@.len() <= 64
        &&& self.details_uri@.len() <= 200
        &&& self.name_score <= 100
        &&& self.image_score <= 100
        &&& self.likeness_score <= 100
        &&& self.essence_score <= 100
        &&& self.total_score == total_of(
            self.name_score as int,
            self.image_score as int,
            self.likeness_score as int,
            self.essence_score as int,
        )
        &&& self.grade == grade_of(self.total_score as int)
    }
}

/// An incident report about a program, submitted by an agent and ratified by
/// the others through the voting state machine.
#[derive(Clone, Debug)]
pub struct OracleReport {
    pub program_address: u64,
    pub submitter: u64,
    pub event_type: String,
    pub headline: String,
    pub impact_score: i8,
    pub confirmations: u8,
    pub rejections: u8,
    pub required_quorum: u8,
    pub finalized: bool,
    pub accepted: bool,
    pub submitted_at: i64,
    pub finalized_at: i64,
}

impl OracleReport {
    /// The report's invariant: fields within their declared bounds, the
    /// submitter's auto-confirmation always counted, and — while the report
    /// is still open — neither finalization rule already met: the
    /// confirmations are short of quorum and the rejections have not passed
    /// half of it.
    pub open spec fn wf(self) -> bool {
        &&& self.event_type@.len() <= 32
        &&& self.headline@.len() <= 200
        &&& -100 <= self.impact_score <= 100
        &&& self.required_quorum >= 1
        &&& self.confirmations >= 1
        &&& !self.finalized ==> self.confirmations < self.required_quorum
        &&& !self.finalized ==> self.rejections <= self.required_quorum as int / 2
    }

    /// An open report: votes are still accepted.
    pub open spec fn is_open(self) -> bool {
        !self.finalized
    }

    /// A terminal accepted report.
    pub open spec fn is_accepted(self) -> bool {
        self.finalized && self.accepted
    }

    /// A terminal rejected report.
    pub open spec fn is_rejected(self) -> bool {
        self.finalized && !self.accepted
    }
}

/// The one-time marker recording that an agent voted on a report; its
/// create-once key is the (report, agent) pair.
#[derive(Clone, Copy, Debug, PartialEq, Eq, Structural)]
pub struct VoteRecord {
    pub report: u64,
    pub agent: u64,
    pub approved: bool,
    pub voted_at: i64,
}

} // verus!
