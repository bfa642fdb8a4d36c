//! The public operations of the registry.
//!
//! Each operation is one atomic unit of work against the records the caller
//! hands in: it either commits every mutation it describes or returns an
//! error having changed nothing. The surrounding runtime authenticates the
//! caller, resolves the records from keyed storage, supplies the clock
//! reading `now`, and serializes operations; everything decided here — the
//! validation chain, quorum derivation, the finalization state machine, and
//! reputation accounting — is stated in the contracts below.

use vstd::prelude::*;
use crate::errors::NileError;
use crate::quorum::{quorum_clamped, compute_quorum};
use crate::scoring::{Grade, total_of, grade_of, compute_total, grade_for};
use crate::state::{NileAuthority, AgentProfile, ProgramProfile, OracleReport, VoteRecord};
use crate::votes::VoteLedger;

verus! {

/// The record a freshly authorized agent receives: active, with every
/// counter and the reputation at zero.
pub open spec fn fresh_agent_profile(agent: u64, admin: u64, now: i64) -> AgentProfile {
    AgentProfile {
        agent_address: agent,
        authorized_by: admin,
        is_active: true,
        total_scores: 0,
        total_reports: 0,
        total_votes: 0,
        points: 0,
        authorized_at: now,
    }
}

/// Bootstraps the authority singleton with the caller as admin and every
/// global counter at zero. The keyed-storage substrate runs this once and
/// refuses a second creation at the singleton's key.
pub fn initialize(admin: u64) -> (authority: NileAuthority)
    ensures
        authority == (NileAuthority {
            admin: admin,
            agent_count: 0,
            total_scores_submitted: 0,
            total_reports: 0,
        }),
{
    NileAuthority { admin, agent_count: 0, total_scores_submitted: 0, total_reports: 0 }
}

/// Authorizes a new agent. Only the admin recorded at bootstrap may do so;
/// on success the registered population grows by one and the agent's record
/// is created active with all counters at zero.
pub fn authorize_agent(authority: &mut NileAuthority, caller: u64, agent: u64, now: i64) -> (r:
    Result<AgentProfile, NileError>)
    ensures
        caller != old(authority).admin ==> r == Err::<AgentProfile, NileError>(
            NileError::UnauthorizedAgent,
        ),
        caller == old(authority).admin && old(authority).agent_count == u32::MAX ==> r == Err::<
            AgentProfile,
            NileError,
        >(NileError::Overflow),
        r is Err ==> *final(authority) == *old(authority),
        caller == old(authority).admin && old(authority).agent_count < u32::MAX ==> r == Ok::<
            AgentProfile,
            NileError,
        >(fresh_agent_profile(agent, old(authority).admin, now)),
        r is Ok ==> final(authority).agent_count == old(authority).agent_count + 1,
        r is Ok ==> final(authority).admin == old(authority).admin,
        r is Ok ==> final(authority).total_scores_submitted == old(authority).total_scores_submitted,
        r is Ok ==> final(authority).total_reports == old(authority).total_reports,
{
    if caller != authority.admin {
        return Err(NileError::UnauthorizedAgent);
    }
    if authority.agent_count == u32::MAX {
        return Err(NileError::Overflow);
    }
    authority.agent_count = authority.agent_count + 1;
    Ok(AgentProfile {
        agent_address: agent,
        authorized_by: authority.admin,
        is_active: true,
        total_scores: 0,
        total_reports: 0,
        total_votes: 0,
        points: 0,
        authorized_at: now,
    })
}

/// Registers a program for tracking: baseline profile with every sub-score
/// at zero, grade F, and an empty details reference. The substrate refuses a
/// second registration at the same program key.
pub fn register_program(program_address: u64, name: String, registrant: u64, now: i64) -> (r:
    Result<ProgramProfile, NileError>)
    ensures
        name@.len() > 64 ==> r == Err::<ProgramProfile, NileError>(NileError::NameTooLong),
        name@.len() <= 64 ==> r is Ok,
        r matches Ok(profile) ==> ({
            &&& profile.program_address == program_address
            &&& profile.name == name
            &&& profile.registrant == registrant
            &&& profile.name_score == 0
            &&& profile.image_score == 0
            &&& profile.likeness_score == 0
            &&& profile.essence_score == 0
            &&& profile.total_score == 0
            &&& profile.grade == Grade::F
            &&& profile.score_count == 0
            &&& profile.last_scored_at == 0
            &&& profile.registered_at == now
            &&& profile.details_uri@ == Seq::<char>::empty()
            &&& profile.wf()
        }),
{
    if name.as_str().unicode_len() > 64 {
        return Err(NileError::NameTooLong);
    }
    Ok(ProgramProfile {
        program_address,
        name,
        registrant,
        name_score: 0,
        image_score: 0,
        likeness_score: 0,
        essence_score: 0,
        total_score: 0,
        grade: Grade::F,
        score_count: 0,
        last_scored_at: 0,
        registered_at: now,
        details_uri: String::new(),
    })
}

/// The first reason a score submission is rejected, if any: a sub-score
/// outside `0..=100`, a details reference over 200 characters, a suspended
/// agent, or a counter increment that would overflow — in that order.
pub open spec fn submit_score_error(
    name_score: u8,
    image_score: u8,
    likeness_score: u8,
    essence_score: u8,
    details_uri: Seq<char>,
    profile: ProgramProfile,
    agent: AgentProfile,
    authority: NileAuthority,
) -> Option<NileError> {
    if name_score > 100 || image_score > 100 || likeness_score > 100 || essence_score > 100 {
        Some(NileError::ScoreOutOfRange)
    } else if details_uri.len() > 200 {
        Some(NileError::DetailsTooLong)
    } else if !agent.is_active {
        Some(NileError::AgentSuspended)
    } else if profile.score_count == u32::MAX || agent.total_scores == u64::MAX || agent.points
        > u64::MAX - 10 || authority.total_scores_submitted == u64::MAX {
        Some(NileError::Overflow)
    } else {
        None
    }
}

/// Submits a fresh scoring of a program: overwrites the four sub-scores,
/// derives the total and grade through the aggregator, stamps the scoring
/// metadata, and credits the agent (+1 score, +10 reputation points) and the
/// global total. A rejected submission mutates nothing.
pub fn submit_score(
    profile: &mut ProgramProfile,
    agent_profile: &mut AgentProfile,
    authority: &mut NileAuthority,
    name_score: u8,
    image_score: u8,
    likeness_score: u8,
    essence_score: u8,
    details_uri: String,
    now: i64,
) -> (r: Result<(), NileError>)
    requires
        old(profile).wf(),
    ensures
        r is Err <==> submit_score_error(
            name_score,
            image_score,
            likeness_score,
            essence_score,
            details_uri@,
            *old(profile),
            *old(agent_profile),
            *old(authority),
        ) is Some,
        r matches Err(e) ==> Some(e) == submit_score_error(
            name_score,
            image_score,
            likeness_score,
            essence_score,
            details_uri@,
            *old(profile),
            *old(agent_profile),
            *old(authority),
        ),
        r is Err ==> *final(profile) == *old(profile) && *final(agent_profile) == *old(agent_profile) && *final(authority) == *old(authority),
        r is Ok ==> final(profile).name_score == name_score && final(profile).image_score
            == image_score && final(profile).likeness_score == likeness_score && final(profile).essence_score == essence_score,
        r is Ok ==> final(profile).total_score == total_of(
            name_score as int,
            image_score as int,
            likeness_score as int,
            essence_score as int,
        ),
        r is Ok ==> final(profile).grade == grade_of(final(profile).total_score as int),
        r is Ok ==> final(profile).score_count == old(profile).score_count + 1,
        r is Ok ==> final(profile).last_scored_at == now,
        r is Ok ==> final(profile).details_uri == details_uri,
        r is Ok ==> final(profile).program_address == old(profile).program_address && final(profile).name == old(profile).name && final(profile).registrant == old(profile).registrant
            && final(profile).registered_at == old(profile).registered_at,
        final(profile).wf(),
        r is Ok ==> final(agent_profile).total_scores == old(agent_profile).total_scores + 1,
        r is Ok ==> final(agent_profile).points == old(agent_profile).points + 10,
        r is Ok ==> final(agent_profile).agent_address == old(agent_profile).agent_address
            && final(agent_profile).authorized_by == old(agent_profile).authorized_by && final(agent_profile).is_active == old(agent_profile).is_active && final(agent_profile).total_reports == old(agent_profile).total_reports && final(agent_profile).total_votes == old(agent_profile).total_votes
            && final(agent_profile).authorized_at == old(agent_profile).authorized_at,
        r is Ok ==> final(authority).total_scores_submitted == old(authority).total_scores_submitted + 1,
        r is Ok ==> final(authority).admin == old(authority).admin && final(authority).agent_count
            == old(authority).agent_count && final(authority).total_reports == old(authority).total_reports,
{
    if name_score > 100 || image_score > 100 || likeness_score > 100 || essence_score > 100 {
        return Err(NileError::ScoreOutOfRange);
    }
    if details_uri.as_str().unicode_len() > 200 {
        return Err(NileError::DetailsTooLong);
    }
    if !agent_profile.is_active {
        return Err(NileError::AgentSuspended);
    }
    if profile.score_count == u32::MAX || agent_profile.total_scores == u64::MAX
        || agent_profile.points > u64::MAX - 10 || authority.total_scores_submitted == u64::MAX {
        return Err(NileError::Overflow);
    }
    let total = compute_total(name_score, image_score, likeness_score, essence_score);
    let grade = grade_for(total);
    profile.name_score = name_score;
    profile.image_score = image_score;
    profile.likeness_score = likeness_score;
    profile.essence_score = essence_score;
    profile.total_score = total;
    profile.grade = grade;
    profile.score_count = profile.score_count + 1;
    profile.last_scored_at = now;
    profile.details_uri = details_uri;
    agent_profile.total_scores = agent_profile.total_scores + 1;
    agent_profile.points = agent_profile.points + 10;
    authority.total_scores_submitted = authority.total_scores_submitted + 1;
    Ok(())
}

/// The first reason a report submission is rejected, if any: an event type
/// over 32 characters, a headline over 200, an impact score outside
/// `-100..=100`, a suspended agent, or a counter increment that would
/// overflow — in that order.
pub open spec fn submit_report_error(
    event_type: Seq<char>,
    headline: Seq<char>,
    impact_score: i8,
    agent: AgentProfile,
    authority: NileAuthority,
) -> Option<NileError> {
    if event_type.len() > 32 {
        Some(NileError::EventTypeTooLong)
    } else if headline.len() > 200 {
        Some(NileError::HeadlineTooLong)
    } else if impact_score < -100 || impact_score > 100 {
        Some(NileError::ImpactOutOfRange)
    } else if !agent.is_active {
        Some(NileError::AgentSuspended)
    } else if agent.total_reports == u64::MAX || agent.points > u64::MAX - 5
        || authority.total_reports == u64::MAX {
        Some(NileError::Overflow)
    } else {
        None
    }
}

/// Submits an incident report. The quorum is derived from the agent count
/// read now and frozen into the report; the submitter auto-confirms, and a
/// report whose quorum is already met by that one confirmation (a population
/// of at most one agent) is finalized accepted at creation. The submitter is
/// credited (+1 report, +5 reputation points), as is the global report
/// count. A rejected submission mutates nothing.
pub fn submit_report(
    authority: &mut NileAuthority,
    agent_profile: &mut AgentProfile,
    program_address: u64,
    event_type: String,
    headline: String,
    impact_score: i8,
    now: i64,
) -> (r: Result<OracleReport, NileError>)
    ensures
        r is Err <==> submit_report_error(
            event_type@,
            headline@,
            impact_score,
            *old(agent_profile),
            *old(authority),
        ) is Some,
        r matches Err(e) ==> Some(e) == submit_report_error(
            event_type@,
            headline@,
            impact_score,
            *old(agent_profile),
            *old(authority),
        ),
        r is Err ==> *final(authority) == *old(authority) && *final(agent_profile) == *old(agent_profile),
        r matches Ok(report) ==> ({
            &&& report.program_address == program_address
            &&& report.submitter == old(agent_profile).agent_address
            &&& report.event_type == event_type
            &&& report.headline == headline
            &&& report.impact_score == impact_score
            &&& report.confirmations == 1
            &&& report.rejections == 0
            &&& report.required_quorum == quorum_clamped(old(authority).agent_count as nat)
            &&& report.finalized == (quorum_clamped(old(authority).agent_count as nat) <= 1)
            &&& report.accepted == (quorum_clamped(old(authority).agent_count as nat) <= 1)
            &&& report.submitted_at == now
            &&& report.finalized_at == 0
            &&& report.wf()
        }),
        r is Ok ==> final(agent_profile).total_reports == old(agent_profile).total_reports + 1,
        r is Ok ==> final(agent_profile).points == old(agent_profile).points + 5,
        r is Ok ==> final(agent_profile).agent_address == old(agent_profile).agent_address
            && final(agent_profile).authorized_by == old(agent_profile).authorized_by && final(agent_profile).is_active == old(agent_profile).is_active && final(agent_profile).total_scores == old(agent_profile).total_scores && final(agent_profile).total_votes == old(agent_profile).total_votes
            && final(agent_profile).authorized_at == old(agent_profile).authorized_at,
        r is Ok ==> final(authority).total_reports == old(authority).total_reports + 1,
        r is Ok ==> final(authority).admin == old(authority).admin && final(authority).agent_count
            == old(authority).agent_count && final(authority).total_scores_submitted == old(authority).total_scores_submitted,
{
    if event_type.as_str().unicode_len() > 32 {
        return Err(NileError::EventTypeTooLong);
    }
    if headline.as_str().unicode_len() > 200 {
        return Err(NileError::HeadlineTooLong);
    }
    if impact_score < -100 || impact_score > 100 {
        return Err(NileError::ImpactOutOfRange);
    }
    if !agent_profile.is_active {
        return Err(NileError::AgentSuspended);
    }
    if agent_profile.total_reports == u64::MAX || agent_profile.points > u64::MAX - 5
        || authority.total_reports == u64::MAX {
        return Err(NileError::Overflow);
    }
    let quorum = compute_quorum(authority.agent_count);
    let report = OracleReport {
        program_address,
        submitter: agent_profile.agent_address,
        event_type,
        headline,
        impact_score,
        confirmations: 1,
        rejections: 0,
        required_quorum: quorum,
        finalized: quorum <= 1,
        accepted: quorum <= 1,
        submitted_at: now,
        finalized_at: 0,
    };
    agent_profile.total_reports = agent_profile.total_reports + 1;
    agent_profile.points = agent_profile.points + 5;
    authority.total_reports = authority.total_reports + 1;
    Ok(report)
}

/// The first reason a vote is rejected, if any, in the guard order of the
/// state machine: the report is already terminal, the voter is suspended,
/// the voter is the report's own submitter, the voter already holds a marker
/// on this report, or a counter increment would overflow.
pub open spec fn vote_error(
    report: OracleReport,
    votes: Map<(u64, u64), VoteRecord>,
    agent: AgentProfile,
    report_id: u64,
) -> Option<NileError> {
    if report.finalized {
        Some(NileError::ReportAlreadyFinalized)
    } else if !agent.is_active {
        Some(NileError::AgentSuspended)
    } else if agent.agent_address == report.submitter {
        Some(NileError::SelfVoteNotAllowed)
    } else if votes.contains_key((report_id, agent.agent_address)) {
        Some(NileError::AlreadyVoted)
    } else if agent.total_votes == u64::MAX || agent.points > u64::MAX - 2 {
        Some(NileError::Overflow)
    } else {
        None
    }
}

/// The state machine's transition for one valid vote: count the stance, then
/// finalize accepted if the confirmations reached the quorum, else finalize
/// rejected if the rejections passed half of it, else stay open.
pub open spec fn apply_vote(report: OracleReport, approve: bool, now: i64) -> OracleReport {
    let confirmations = if approve {
        (report.confirmations + 1) as u8
    } else {
        report.confirmations
    };
    let rejections = if approve {
        report.rejections
    } else {
        (report.rejections + 1) as u8
    };
    if confirmations >= report.required_quorum {
        OracleReport {
            confirmations,
            rejections,
            finalized: true,
            accepted: true,
            finalized_at: now,
            ..report
        }
    } else if rejections > report.required_quorum as int / 2 {
        OracleReport {
            confirmations,
            rejections,
            finalized: true,
            accepted: false,
            finalized_at: now,
            ..report
        }
    } else {
        OracleReport { confirmations, rejections, ..report }
    }
}

/// Votes on an open report. A valid vote counts the stance, may finalize the
/// report, always creates the one-time (report, agent) marker, and credits
/// the voter (+1 vote, +2 reputation points) whatever the stance and whatever
/// it triggered. A rejected vote mutates nothing.
pub fn vote_report(
    report: &mut OracleReport,
    votes: &mut VoteLedger,
    agent_profile: &mut AgentProfile,
    report_id: u64,
    approve: bool,
    now: i64,
) -> (r: Result<(), NileError>)
    requires
        old(report).wf(),
        old(votes).wf(),
    ensures
        r is Err <==> vote_error(
            *old(report),
            old(votes)@,
            *old(agent_profile),
            report_id,
        ) is Some,
        r matches Err(e) ==> Some(e) == vote_error(
            *old(report),
            old(votes)@,
            *old(agent_profile),
            report_id,
        ),
        r is Err ==> *final(report) == *old(report) && *final(votes) == *old(votes) && *final(agent_profile) == *old(agent_profile),
        r is Ok ==> *final(report) == apply_vote(*old(report), approve, now),
        final(report).wf(),
        final(votes).wf(),
        r is Ok ==> final(votes)@ == old(votes)@.insert(
            (report_id, old(agent_profile).agent_address),
            (VoteRecord {
                report: report_id,
                agent: old(agent_profile).agent_address,
                approved: approve,
                voted_at: now,
            }),
        ),
        r is Ok ==> final(agent_profile).total_votes == old(agent_profile).total_votes + 1,
        r is Ok ==> final(agent_profile).points == old(agent_profile).points + 2,
        r is Ok ==> final(agent_profile).agent_address == old(agent_profile).agent_address
            && final(agent_profile).authorized_by == old(agent_profile).authorized_by && final(agent_profile).is_active == old(agent_profile).is_active && final(agent_profile).total_scores == old(agent_profile).total_scores && final(agent_profile).total_reports == old(agent_profile).total_reports
            && final(agent_profile).authorized_at == old(agent_profile).authorized_at,
{
    if report.finalized {
        return Err(NileError::ReportAlreadyFinalized);
    }
    if !agent_profile.is_active {
        return Err(NileError::AgentSuspended);
    }
    if agent_profile.agent_address == report.submitter {
        return Err(NileError::SelfVoteNotAllowed);
    }
    if votes.contains(report_id, agent_profile.agent_address) {
        return Err(NileError::AlreadyVoted);
    }
    if agent_profile.total_votes == u64::MAX || agent_profile.points > u64::MAX - 2 {
        return Err(NileError::Overflow);
    }
    if approve {
        report.confirmations = report.confirmations + 1;
    } else {
        report.rejections = report.rejections + 1;
    }
    if report.confirmations >= report.required_quorum {
        report.finalized = true;
        report.accepted = true;
        report.finalized_at = now;
    } else if report.rejections > report.required_quorum / 2 {
        report.finalized = true;
        report.accepted = false;
        report.finalized_at = now;
    }
    let marker = VoteRecord {
        report: report_id,
        agent: agent_profile.agent_address,
        approved: approve,
        voted_at: now,
    };
    let inserted = votes.try_insert(marker);
    assert(inserted);
    agent_profile.total_votes = agent_profile.total_votes + 1;
    agent_profile.points = agent_profile.points + 2;
    Ok(())
}

/// A confirming vote that brings an open report's confirmations to its
/// frozen quorum finalizes it as accepted.
pub proof fn lemma_quorum_confirmations_accept(report: OracleReport, now: i64)
    requires
        report.wf(),
        report.is_open(),
        report.confirmations + 1 >= report.required_quorum,
    ensures
        apply_vote(report, true, now).is_accepted(),
        apply_vote(report, true, now).confirmations == report.confirmations + 1,
        apply_vote(report, true, now).rejections == report.rejections,
{
}

/// Rejection-unreachability: once a rejecting vote drives an open report's
/// rejections past half its quorum, approval can no longer be reached and
/// the report finalizes as rejected at that very vote.
pub proof fn lemma_rejection_majority_rejects(report: OracleReport, now: i64)
    requires
        report.wf(),
        report.is_open(),
        report.rejections + 1 > report.required_quorum as int / 2,
    ensures
        apply_vote(report, false, now).is_rejected(),
        apply_vote(report, false, now).rejections == report.rejections + 1,
        apply_vote(report, false, now).confirmations == report.confirmations,
{
}

/// A terminal report is frozen: every further vote attempt, whatever the
/// voter and stance, fails with the already-finalized condition — and so,
/// by the voting operation's contract, mutates nothing.
pub proof fn lemma_finalized_is_frozen(
    report: OracleReport,
    votes: Map<(u64, u64), VoteRecord>,
    agent: AgentProfile,
    report_id: u64,
)
    requires
        report.finalized,
    ensures
        vote_error(report, votes, agent, report_id) == Some(NileError::ReportAlreadyFinalized),
{
}

/// Uniqueness: once an agent holds a marker on a report, any further vote
/// attempt by that agent on that report is refused — with the duplicate-vote
/// condition whenever the report is still open and the agent still eligible,
/// and regardless of how the first vote went.
pub proof fn lemma_second_vote_refused(
    report: OracleReport,
    votes: Map<(u64, u64), VoteRecord>,
    agent: AgentProfile,
    report_id: u64,
)
    requires
        votes.contains_key((report_id, agent.agent_address)),
    ensures
        vote_error(report, votes, agent, report_id) is Some,
        report.is_open() && agent.is_active && agent.agent_address != report.submitter
            ==> vote_error(report, votes, agent, report_id) == Some(NileError::AlreadyVoted),
{
}

/// Self-vote: the submitter's own vote attempt on their report is refused,
/// even before any other vote is cast — with the self-vote condition
/// whenever the report is still open and the submitter still active.
pub proof fn lemma_self_vote_refused(
    report: OracleReport,
    votes: Map<(u64, u64), VoteRecord>,
    agent: AgentProfile,
    report_id: u64,
)
    requires
        agent.agent_address == report.submitter,
    ensures
        vote_error(report, votes, agent, report_id) is Some,
        report.is_open() && agent.is_active ==> vote_error(report, votes, agent, report_id)
            == Some(NileError::SelfVoteNotAllowed),
{
}

} // verus!
