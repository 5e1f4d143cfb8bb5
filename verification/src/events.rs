//! Events appended by successful operations.
//!
//! Each mutating operation that commits appends exactly one event to the
//! engine's side-channel list. The list is written, never read back: the
//! host drains it and forwards the events to external observers.

use vstd::prelude::*;

verus! {

/// The registry was created.
#[derive(Debug)]
pub struct GovernanceInitialized {
    pub authority: u64,
    pub epi_threshold: u64,
    pub voting_period: u64,
    pub timestamp: i64,
}

/// A proposal cleared the EPI gate and entered its voting window.
#[derive(Debug)]
pub struct ProposalSubmitted {
    pub proposal_id: u64,
    pub proposer: u64,
    pub title: String,
    pub epi_score: u64,
    pub start_slot: u64,
    pub end_slot: u64,
    pub timestamp: i64,
}

/// A vote was cast and reflected in the proposal's tallies.
#[derive(Debug)]
pub struct VoteCast {
    pub proposal_id: u64,
    pub voter: u64,
    pub support: u8,
    pub voting_power: u64,
    pub reason: String,
    pub timestamp: i64,
}

/// A proposal passed quorum and majority and was executed.
#[derive(Debug)]
pub struct ProposalExecuted {
    pub proposal_id: u64,
    pub executor: u64,
    pub votes_for: u64,
    pub votes_against: u64,
    pub timestamp: i64,
}

/// A guardian vetoed a proposal.
#[derive(Debug)]
pub struct ProposalVetoed {
    pub proposal_id: u64,
    pub guardian: u64,
    pub reason: String,
    pub timestamp: i64,
}

/// A thought log record was appended.
#[derive(Debug)]
pub struct ThoughtLogged {
    pub proposal_id: u64,
    pub agent_id: String,
    pub thought_hash: [u8; 32],
    pub timestamp: i64,
}

/// A voter was registered with its voting power.
#[derive(Debug)]
pub struct VoterRegistered {
    pub voter: u64,
    pub voting_power: u64,
    pub timestamp: i64,
}

/// A guardian was added.
#[derive(Debug)]
pub struct GuardianAdded {
    pub guardian: u64,
    pub timestamp: i64,
}

/// The authority changed the EPI threshold.
#[derive(Debug)]
pub struct EPIThresholdUpdated {
    pub old_threshold: u64,
    pub new_threshold: u64,
    pub timestamp: i64,
}

/// One event per successful mutating operation.
#[derive(Debug)]
pub enum GovernanceEvent {
    GovernanceInitialized(GovernanceInitialized),
    ProposalSubmitted(ProposalSubmitted),
    VoteCast(VoteCast),
    ProposalExecuted(ProposalExecuted),
    ProposalVetoed(ProposalVetoed),
    ThoughtLogged(ThoughtLogged),
    VoterRegistered(VoterRegistered),
    GuardianAdded(GuardianAdded),
    EPIThresholdUpdated(EPIThresholdUpdated),
}

} // verus!
