use nile_security::errors::NileError;
use nile_security::ops::{authorize_agent, initialize, submit_report, vote_report};
use nile_security::state::{AgentProfile, NileAuthority, OracleReport};
use nile_security::votes::VoteLedger;

fn population(n: u32) -> (NileAuthority, Vec<AgentProfile>) {
    let mut authority = initialize(1);
    let mut agents = Vec::new();
    for i in 0..n {
        let agent = authorize_agent(&mut authority, 1, 10 + i as u64, 0).unwrap();
        agents.push(agent);
    }
    (authority, agents)
}

fn open_report(
    authority: &mut NileAuthority,
    submitter: &mut AgentProfile,
) -> OracleReport {
    submit_report(
        authority,
        submitter,
        77,
        String::from("exploit"),
        String::from("funds drained"),
        -80,
        1000,
    )
    .unwrap()
}

#[test]
fn report_fields_and_frozen_quorum() {
    let (mut authority, mut agents) = population(4);
    let report = open_report(&mut authority, &mut agents[0]);
    assert_eq!(report.program_address, 77);
    assert_eq!(report.submitter, 10);
    assert_eq!(report.event_type, "exploit");
    assert_eq!(report.headline, "funds drained");
    assert_eq!(report.impact_score, -80);
    assert_eq!(report.confirmations, 1);
    assert_eq!(report.rejections, 0);
    assert_eq!(report.required_quorum, 3);
    assert!(!report.finalized);
    assert_eq!(report.submitted_at, 1000);
    assert_eq!(agents[0].total_reports, 1);
    assert_eq!(agents[0].points, 5);
    assert_eq!(authority.total_reports, 1);
}

#[test]
fn single_agent_report_is_immediately_accepted() {
    let (mut authority, mut agents) = population(1);
    let report = open_report(&mut authority, &mut agents[0]);
    assert_eq!(report.required_quorum, 1);
    assert!(report.finalized);
    assert!(report.accepted);
    assert_eq!(report.confirmations, 1);
    assert_eq!(report.rejections, 0);
}

#[test]
fn empty_population_report_is_immediately_accepted() {
    let mut authority = initialize(1);
    let mut outsider = AgentProfile {
        agent_address: 9,
        authorized_by: 1,
        is_active: true,
        total_scores: 0,
        total_reports: 0,
        total_votes: 0,
        points: 0,
        authorized_at: 0,
    };
    let report = open_report(&mut authority, &mut outsider);
    assert_eq!(report.required_quorum, 1);
    assert!(report.finalized);
    assert!(report.accepted);
}

#[test]
fn two_approvals_reach_quorum_of_three() {
    let (mut authority, mut agents) = population(4);
    let mut report = open_report(&mut authority, &mut agents[0]);
    let mut votes = VoteLedger::new();

    let r = vote_report(&mut report, &mut votes, &mut agents[1], 500, true, 1001);
    assert_eq!(r, Ok(()));
    assert_eq!(report.confirmations, 2);
    assert!(!report.finalized);

    let r = vote_report(&mut report, &mut votes, &mut agents[2], 500, true, 1002);
    assert_eq!(r, Ok(()));
    assert_eq!(report.confirmations, 3);
    assert!(report.finalized);
    assert!(report.accepted);
    assert_eq!(report.finalized_at, 1002);

    let marker = votes.get(500, 11).unwrap();
    assert!(marker.approved);
    assert_eq!(marker.voted_at, 1001);
}

#[test]
fn two_rejections_pass_half_quorum_and_reject() {
    let (mut authority, mut agents) = population(4);
    let mut report = open_report(&mut authority, &mut agents[0]);
    let mut votes = VoteLedger::new();

    let r = vote_report(&mut report, &mut votes, &mut agents[1], 500, false, 1001);
    assert_eq!(r, Ok(()));
    assert_eq!(report.rejections, 1);
    assert!(!report.finalized);

    let r = vote_report(&mut report, &mut votes, &mut agents[2], 500, false, 1002);
    assert_eq!(r, Ok(()));
    assert_eq!(report.rejections, 2);
    assert!(report.finalized);
    assert!(!report.accepted);
    assert_eq!(report.finalized_at, 1002);

    let marker = votes.get(500, 12).unwrap();
    assert!(!marker.approved);
}

#[test]
fn late_approval_after_rejection_finality_fails() {
    let (mut authority, mut agents) = population(4);
    let mut report = open_report(&mut authority, &mut agents[0]);
    let mut votes = VoteLedger::new();
    vote_report(&mut report, &mut votes, &mut agents[1], 500, false, 1001).unwrap();
    vote_report(&mut report, &mut votes, &mut agents[2], 500, false, 1002).unwrap();
    assert!(report.finalized);
    assert!(!report.accepted);

    let r = vote_report(&mut report, &mut votes, &mut agents[3], 500, true, 1003);
    assert_eq!(r, Err(NileError::ReportAlreadyFinalized));
    assert_eq!(report.confirmations, 1);
    assert_eq!(report.rejections, 2);
    assert!(!report.accepted);
    assert_eq!(agents[3].total_votes, 0);
    assert_eq!(agents[3].points, 0);
}

#[test]
fn duplicate_vote_fails_whatever_the_first_stance_was() {
    let (mut authority, mut agents) = population(5);
    let mut report = open_report(&mut authority, &mut agents[0]);
    let mut votes = VoteLedger::new();

    vote_report(&mut report, &mut votes, &mut agents[1], 500, true, 1001).unwrap();
    let r = vote_report(&mut report, &mut votes, &mut agents[1], 500, true, 1002);
    assert_eq!(r, Err(NileError::AlreadyVoted));
    let r = vote_report(&mut report, &mut votes, &mut agents[1], 500, false, 1003);
    assert_eq!(r, Err(NileError::AlreadyVoted));

    vote_report(&mut report, &mut votes, &mut agents[2], 500, false, 1004).unwrap();
    let r = vote_report(&mut report, &mut votes, &mut agents[2], 500, true, 1005);
    assert_eq!(r, Err(NileError::AlreadyVoted));

    assert_eq!(report.confirmations, 2);
    assert_eq!(report.rejections, 1);
    assert_eq!(agents[1].total_votes, 1);
    assert_eq!(agents[1].points, 2);
}

#[test]
fn self_vote_fails_before_any_other_vote() {
    let (mut authority, mut agents) = population(4);
    let mut report = open_report(&mut authority, &mut agents[0]);
    let mut votes = VoteLedger::new();
    let r = vote_report(&mut report, &mut votes, &mut agents[0], 500, true, 1001);
    assert_eq!(r, Err(NileError::SelfVoteNotAllowed));
    assert_eq!(report.confirmations, 1);
    assert!(votes.get(500, 10).is_none());
}

#[test]
fn suspended_agent_cannot_vote_or_report() {
    let (mut authority, mut agents) = population(4);
    let mut report = open_report(&mut authority, &mut agents[0]);
    let mut votes = VoteLedger::new();
    agents[1].is_active = false;
    let r = vote_report(&mut report, &mut votes, &mut agents[1], 500, true, 1001);
    assert_eq!(r, Err(NileError::AgentSuspended));

    let r = submit_report(
        &mut authority,
        &mut agents[1],
        77,
        String::from("audit_completed"),
        String::from("clean"),
        30,
        1002,
    );
    assert!(matches!(r, Err(NileError::AgentSuspended)));
}

#[test]
fn report_validation_bounds() {
    let (mut authority, mut agents) = population(4);
    let r = submit_report(&mut authority, &mut agents[0], 77, "e".repeat(33), String::new(), 0, 0);
    assert!(matches!(r, Err(NileError::EventTypeTooLong)));
    let r = submit_report(&mut authority, &mut agents[0], 77, String::new(), "h".repeat(201), 0, 0);
    assert!(matches!(r, Err(NileError::HeadlineTooLong)));
    let r = submit_report(&mut authority, &mut agents[0], 77, String::new(), String::new(), 101, 0);
    assert!(matches!(r, Err(NileError::ImpactOutOfRange)));
    let r = submit_report(&mut authority, &mut agents[0], 77, String::new(), String::new(), -101, 0);
    assert!(matches!(r, Err(NileError::ImpactOutOfRange)));
    assert_eq!(agents[0].total_reports, 0);
    assert_eq!(authority.total_reports, 0);
    let r = submit_report(&mut authority, &mut agents[0], 77, "e".repeat(32), "h".repeat(200), 100, 0);
    assert!(r.is_ok());
}

#[test]
fn reputation_accumulates_per_fixed_weight_events() {
    let (mut authority, mut agents) = population(4);
    // the agent under observation submits one report (+5) and one score (+10)
    let _own_report = open_report(&mut authority, &mut agents[0]);
    let mut profile =
        nile_security::ops::register_program(77, String::from("p"), 1, 0).unwrap();
    nile_security::ops::submit_score(
        &mut profile,
        &mut agents[0],
        &mut authority,
        10,
        20,
        30,
        40,
        String::new(),
        5,
    )
    .unwrap();
    // and votes on two reports submitted by a colleague (+2 each)
    let mut votes = VoteLedger::new();
    let mut first = open_report(&mut authority, &mut agents[1]);
    let mut second = open_report(&mut authority, &mut agents[1]);
    vote_report(&mut first, &mut votes, &mut agents[0], 501, true, 6).unwrap();
    vote_report(&mut second, &mut votes, &mut agents[0], 502, false, 7).unwrap();

    assert_eq!(agents[0].points, 19);
    assert_eq!(agents[0].total_reports, 1);
    assert_eq!(agents[0].total_scores, 1);
    assert_eq!(agents[0].total_votes, 2);
}
