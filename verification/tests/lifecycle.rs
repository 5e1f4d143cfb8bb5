use governance::engine::GovernanceState;
use governance::errors::GovernanceError;
use governance::events::GovernanceEvent;
use governance::state::ProposalStatus;

const AUTHORITY: u64 = 1;
const VOTER_A: u64 = 10;
const VOTER_B: u64 = 11;
const PROPOSER: u64 = 5;
const GUARDIAN: u64 = 7;
const EXECUTOR: u64 = 9;

/// Threshold 700000, period 100 slots, quorum 2000 bp, voters A (60) and
/// B (40).
fn setup() -> GovernanceState {
    let mut s = GovernanceState::initialize(AUTHORITY, 700_000, 100, 2_000, 0);
    s.register_voter(AUTHORITY, VOTER_A, 60, 1).unwrap();
    s.register_voter(AUTHORITY, VOTER_B, 40, 2).unwrap();
    s
}

fn submit_ok(s: &mut GovernanceState, now_slot: u64) -> u64 {
    s.submit_proposal(
        PROPOSER,
        "title".to_string(),
        "description".to_string(),
        800_000,
        500_000,
        500_000,
        [1u8; 32],
        [2u8; 32],
        now_slot,
        100,
    )
    .unwrap()
}

#[test]
fn submission_below_threshold_rejected() {
    let mut s = GovernanceState::initialize(AUTHORITY, 700_000, 100, 2_000, 0);
    let r = s.submit_proposal(
        PROPOSER,
        "title".to_string(),
        "description".to_string(),
        650_000,
        0,
        0,
        [0u8; 32],
        [0u8; 32],
        10,
        100,
    );
    assert_eq!(r, Err(GovernanceError::EPIBelowThreshold));
    assert_eq!(s.governance.proposal_count, 0);
    assert!(s.proposals.is_empty());
}

#[test]
fn proposal_passes_quorum_and_majority() {
    let mut s = setup();
    let id = submit_ok(&mut s, 10);
    assert_eq!(id, 0);
    assert_eq!(s.proposals[0].start_slot, 10);
    assert_eq!(s.proposals[0].end_slot, 110);
    assert_eq!(s.proposals[0].status, ProposalStatus::Active);

    s.vote(0, VOTER_A, 1, "in favour".to_string(), 20, 200).unwrap();
    s.vote(0, VOTER_B, 0, "opposed".to_string(), 30, 300).unwrap();
    assert_eq!(s.tally(0), Some((60, 40, 0)));

    s.execute_proposal(0, EXECUTOR, 111, 400).unwrap();
    assert_eq!(s.proposals[0].status, ProposalStatus::Executed);
    assert_eq!(s.proposals[0].executed_at, 400);
}

#[test]
fn quorum_met_but_no_majority_fails() {
    let mut s = setup();
    submit_ok(&mut s, 10);
    s.vote(0, VOTER_B, 0, String::new(), 30, 300).unwrap();
    // 40 cast >= quorum of 20, but votes_for (0) <= votes_against (40).
    let r = s.execute_proposal(0, EXECUTOR, 111, 400);
    assert_eq!(r, Err(GovernanceError::ProposalNotPassed));
    assert_eq!(s.proposals[0].status, ProposalStatus::Active);
    assert_eq!(s.proposals[0].executed_at, 0);
}

#[test]
fn veto_blocks_execution() {
    let mut s = setup();
    s.add_guardian(AUTHORITY, GUARDIAN, 3).unwrap();
    submit_ok(&mut s, 10);
    s.vote(0, VOTER_A, 1, String::new(), 20, 200).unwrap();
    s.vote(0, VOTER_B, 0, String::new(), 30, 300).unwrap();

    s.veto_proposal(0, GUARDIAN, "halted".to_string(), 350).unwrap();
    assert_eq!(s.proposals[0].status, ProposalStatus::Vetoed);
    // Tallies are untouched by the veto.
    assert_eq!(s.tally(0), Some((60, 40, 0)));
    assert_eq!(s.guardians[0].veto_count, 1);

    let r = s.execute_proposal(0, EXECUTOR, 111, 400);
    assert_eq!(r, Err(GovernanceError::ProposalNotActive));
    assert_eq!(s.proposals[0].status, ProposalStatus::Vetoed);
}

#[test]
fn vote_on_vetoed_proposal_rejected_mid_window() {
    let mut s = setup();
    s.add_guardian(AUTHORITY, GUARDIAN, 3).unwrap();
    submit_ok(&mut s, 10);
    s.veto_proposal(0, GUARDIAN, String::new(), 300).unwrap();
    // Slot 50 is inside the window, but the veto already retired the
    // proposal: the rejection is about the status, not the window.
    let r = s.vote(0, VOTER_A, 1, String::new(), 50, 500).unwrap_err();
    assert_eq!(r, GovernanceError::ProposalNotActive);
    assert_eq!(s.tally(0), Some((0, 0, 0)));
}

#[test]
fn proposals_are_independent() {
    let mut s = setup();
    submit_ok(&mut s, 10);
    submit_ok(&mut s, 11);
    s.vote(0, VOTER_A, 1, String::new(), 20, 200).unwrap();
    s.vote(1, VOTER_A, 0, String::new(), 21, 210).unwrap();
    // The same voter may vote once on each proposal, and each tally only
    // reflects its own records.
    assert_eq!(s.tally(0), Some((60, 0, 0)));
    assert_eq!(s.tally(1), Some((0, 60, 0)));
    assert_eq!(s.vote_records.len(), 2);
}

#[test]
fn duplicate_vote_rejected_and_tallies_unchanged() {
    let mut s = setup();
    submit_ok(&mut s, 10);
    s.vote(0, VOTER_A, 1, String::new(), 20, 200).unwrap();
    let r = s.vote(0, VOTER_A, 0, String::new(), 21, 210).unwrap_err();
    assert_eq!(r, GovernanceError::DuplicateVote);
    assert_eq!(s.tally(0), Some((60, 0, 0)));
    assert_eq!(s.vote_records.len(), 1);
}

#[test]
fn tally_equals_vote_record_sums_after_every_vote() {
    let mut s = setup();
    submit_ok(&mut s, 10);
    let voters = [(VOTER_A, 1u8), (VOTER_B, 2u8)];
    for (voter, support) in voters {
        s.vote(0, voter, support, String::new(), 20, 200).unwrap();
        let (vf, va, vab) = s.tally(0).unwrap();
        let sum = |sup: u8| -> u64 {
            s.vote_records
                .iter()
                .filter(|r| r.proposal_id == 0 && r.support == sup)
                .map(|r| r.voting_power)
                .sum()
        };
        assert_eq!(vf, sum(1));
        assert_eq!(va, sum(0));
        assert_eq!(vab, sum(2));
    }
    assert_eq!(s.tally(0), Some((60, 0, 40)));
}

#[test]
fn vote_window_boundaries() {
    let mut s = setup();
    submit_ok(&mut s, 10);
    let r = s.vote(0, VOTER_A, 1, String::new(), 9, 100).unwrap_err();
    assert_eq!(r, GovernanceError::VotingNotStarted);
    let r = s.vote(0, VOTER_A, 1, String::new(), 111, 100).unwrap_err();
    assert_eq!(r, GovernanceError::VotingEnded);
    // Both window ends are inclusive.
    s.vote(0, VOTER_A, 1, String::new(), 10, 100).unwrap();
    s.vote(0, VOTER_B, 1, String::new(), 110, 100).unwrap();
}

#[test]
fn vote_without_power_rejected() {
    let mut s = setup();
    s.register_voter(AUTHORITY, 12, 0, 3).unwrap();
    submit_ok(&mut s, 10);
    let r = s.vote(0, 99, 1, String::new(), 20, 200).unwrap_err();
    assert_eq!(r, GovernanceError::NoVotingPower);
    let r = s.vote(0, 12, 1, String::new(), 20, 200).unwrap_err();
    assert_eq!(r, GovernanceError::NoVotingPower);
}

#[test]
fn vote_invalid_support_rejected() {
    let mut s = setup();
    submit_ok(&mut s, 10);
    let r = s.vote(0, VOTER_A, 3, String::new(), 20, 200).unwrap_err();
    assert_eq!(r, GovernanceError::InvalidVoteType);
    assert!(s.vote_records.is_empty());
}

#[test]
fn unknown_proposal_rejected_everywhere() {
    let mut s = setup();
    s.add_guardian(AUTHORITY, GUARDIAN, 3).unwrap();
    assert_eq!(
        s.vote(0, VOTER_A, 1, String::new(), 20, 200),
        Err(GovernanceError::InvalidProposal)
    );
    assert_eq!(
        s.execute_proposal(0, EXECUTOR, 200, 400),
        Err(GovernanceError::InvalidProposal)
    );
    assert_eq!(
        s.veto_proposal(0, GUARDIAN, String::new(), 350),
        Err(GovernanceError::InvalidProposal)
    );
    assert_eq!(s.tally(0), None);
}

#[test]
fn execute_before_window_closes_rejected() {
    let mut s = setup();
    submit_ok(&mut s, 10);
    s.vote(0, VOTER_A, 1, String::new(), 20, 200).unwrap();
    // The window's last slot still rejects resolution.
    let r = s.execute_proposal(0, EXECUTOR, 110, 400).unwrap_err();
    assert_eq!(r, GovernanceError::VotingNotEnded);
    assert_eq!(s.proposals[0].status, ProposalStatus::Active);
}

#[test]
fn quorum_not_reached_fails() {
    // Quorum of 50% of 100 total power; only 40 cast.
    let mut s = GovernanceState::initialize(AUTHORITY, 700_000, 100, 5_000, 0);
    s.register_voter(AUTHORITY, VOTER_A, 60, 1).unwrap();
    s.register_voter(AUTHORITY, VOTER_B, 40, 2).unwrap();
    submit_ok(&mut s, 10);
    s.vote(0, VOTER_B, 1, String::new(), 20, 200).unwrap();
    let r = s.execute_proposal(0, EXECUTOR, 111, 400).unwrap_err();
    assert_eq!(r, GovernanceError::QuorumNotReached);
    assert_eq!(s.proposals[0].status, ProposalStatus::Active);
}

#[test]
fn quorum_boundary_counts_as_reached() {
    // Quorum is 100 * 2000 / 10000 = 20; exactly 20 cast, all in favour.
    let mut s = GovernanceState::initialize(AUTHORITY, 700_000, 100, 2_000, 0);
    s.register_voter(AUTHORITY, VOTER_A, 20, 1).unwrap();
    s.register_voter(AUTHORITY, VOTER_B, 80, 2).unwrap();
    submit_ok(&mut s, 10);
    s.vote(0, VOTER_A, 1, String::new(), 20, 200).unwrap();
    s.execute_proposal(0, EXECUTOR, 111, 400).unwrap();
    assert_eq!(s.proposals[0].status, ProposalStatus::Executed);
}

#[test]
fn tied_vote_fails_majority() {
    let mut s = GovernanceState::initialize(AUTHORITY, 700_000, 100, 2_000, 0);
    s.register_voter(AUTHORITY, VOTER_A, 50, 1).unwrap();
    s.register_voter(AUTHORITY, VOTER_B, 50, 2).unwrap();
    submit_ok(&mut s, 10);
    s.vote(0, VOTER_A, 1, String::new(), 20, 200).unwrap();
    s.vote(0, VOTER_B, 0, String::new(), 30, 300).unwrap();
    let r = s.execute_proposal(0, EXECUTOR, 111, 400).unwrap_err();
    assert_eq!(r, GovernanceError::ProposalNotPassed);
}

#[test]
fn veto_requires_active_guardian() {
    let mut s = setup();
    submit_ok(&mut s, 10);
    let r = s.veto_proposal(0, GUARDIAN, String::new(), 350).unwrap_err();
    assert_eq!(r, GovernanceError::NotGuardian);
    assert_eq!(s.proposals[0].status, ProposalStatus::Active);
}

#[test]
fn veto_of_settled_proposal_rejected() {
    let mut s = setup();
    s.add_guardian(AUTHORITY, GUARDIAN, 3).unwrap();
    submit_ok(&mut s, 10);
    s.vote(0, VOTER_A, 1, String::new(), 20, 200).unwrap();
    s.execute_proposal(0, EXECUTOR, 111, 400).unwrap();
    let r = s.veto_proposal(0, GUARDIAN, String::new(), 500).unwrap_err();
    assert_eq!(r, GovernanceError::CannotVeto);
    assert_eq!(s.proposals[0].status, ProposalStatus::Executed);
    assert_eq!(s.guardians[0].veto_count, 0);

    let id = submit_ok(&mut s, 200);
    s.veto_proposal(id, GUARDIAN, String::new(), 600).unwrap();
    let r = s.veto_proposal(id, GUARDIAN, String::new(), 700).unwrap_err();
    assert_eq!(r, GovernanceError::CannotVeto);
    assert_eq!(s.guardians[0].veto_count, 1);
}

#[test]
fn submission_field_bounds_enforced() {
    let mut s = setup();
    let long_title = "t".repeat(65);
    let r = s.submit_proposal(
        PROPOSER,
        long_title,
        String::new(),
        800_000,
        0,
        0,
        [0u8; 32],
        [0u8; 32],
        10,
        100,
    );
    assert_eq!(r, Err(GovernanceError::TitleTooLong));

    let long_description = "d".repeat(257);
    let r = s.submit_proposal(
        PROPOSER,
        String::new(),
        long_description,
        800_000,
        0,
        0,
        [0u8; 32],
        [0u8; 32],
        10,
        100,
    );
    assert_eq!(r, Err(GovernanceError::DescriptionTooLong));

    let r = s.submit_proposal(
        PROPOSER,
        String::new(),
        String::new(),
        800_000,
        1_000_001,
        0,
        [0u8; 32],
        [0u8; 32],
        10,
        100,
    );
    assert_eq!(r, Err(GovernanceError::InvalidScore));

    let r = s.submit_proposal(
        PROPOSER,
        String::new(),
        String::new(),
        800_000,
        0,
        1_000_001,
        [0u8; 32],
        [0u8; 32],
        10,
        100,
    );
    assert_eq!(r, Err(GovernanceError::InvalidScore));
    assert_eq!(s.governance.proposal_count, 0);

    // The bounds themselves are accepted.
    let r = s.submit_proposal(
        PROPOSER,
        "t".repeat(64),
        "d".repeat(256),
        700_000,
        1_000_000,
        1_000_000,
        [0u8; 32],
        [0u8; 32],
        10,
        100,
    );
    assert_eq!(r, Ok(0));
}

#[test]
fn proposal_ids_are_dense_and_ordered() {
    let mut s = setup();
    assert_eq!(submit_ok(&mut s, 10), 0);
    assert_eq!(submit_ok(&mut s, 12), 1);
    assert_eq!(s.governance.proposal_count, 2);
    assert_eq!(s.proposals[0].id, 0);
    assert_eq!(s.proposals[1].id, 1);
}

#[test]
fn proposal_snapshot_is_stored_verbatim() {
    let mut s = setup();
    s.submit_proposal(
        PROPOSER,
        "raise the bar".to_string(),
        "increase the EPI threshold".to_string(),
        800_000,
        400_000,
        900_000,
        [1u8; 32],
        [2u8; 32],
        10,
        123,
    )
    .unwrap();
    let p = &s.proposals[0];
    assert_eq!(p.proposer, PROPOSER);
    assert_eq!(p.title, "raise the bar");
    assert_eq!(p.description, "increase the EPI threshold");
    assert_eq!(p.epi_score, 800_000);
    assert_eq!(p.profit_score, 400_000);
    assert_eq!(p.ethics_score, 900_000);
    assert_eq!(p.ipfs_hash, [1u8; 32]);
    assert_eq!(p.thought_hash, [2u8; 32]);
    assert_eq!((p.votes_for, p.votes_against, p.votes_abstain), (0, 0, 0));
    assert_eq!(p.created_at, 123);
    assert_eq!(p.executed_at, 0);
}

#[test]
fn vote_record_snapshots_power_and_events_flow() {
    let mut s = setup();
    submit_ok(&mut s, 10);
    s.vote(0, VOTER_A, 1, "because".to_string(), 20, 200).unwrap();
    let r = &s.vote_records[0];
    assert_eq!(r.voter, VOTER_A);
    assert_eq!(r.proposal_id, 0);
    assert_eq!(r.support, 1);
    assert_eq!(r.voting_power, 60);
    assert_eq!(r.timestamp, 200);

    let last = s.events.last().unwrap();
    match last {
        GovernanceEvent::VoteCast(e) => {
            assert_eq!(e.proposal_id, 0);
            assert_eq!(e.voter, VOTER_A);
            assert_eq!(e.support, 1);
            assert_eq!(e.voting_power, 60);
            assert_eq!(e.reason, "because");
            assert_eq!(e.timestamp, 200);
        }
        other => panic!("expected a VoteCast event, got {:?}", other),
    }
}
