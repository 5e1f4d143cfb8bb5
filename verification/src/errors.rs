//! Error taxonomy of the governance engine.
//!
//! Every operation is atomic: it either fully commits its state changes or
//! fails with one of these errors and leaves the state untouched.

use vstd::prelude::*;

verus! {

/// Why a governance operation was rejected.
///
/// Validation errors (`EPIBelowThreshold`, `InvalidScore`, `TitleTooLong`,
/// `DescriptionTooLong`, `AgentIdTooLong`, `ActionTooLong`,
/// `InvalidVoteType`) reject bad input before any mutation. State errors
/// (`ProposalNotActive`, `VotingNotStarted`, `VotingEnded`,
/// `VotingNotEnded`, `CannotVeto`) report an operation that is illegal in
/// the proposal's current phase. Authorization errors (`Unauthorized`,
/// `NotGuardian`, `NoVotingPower`) report a caller without the needed
/// privilege. Conflict errors (`InvalidProposal`, `DuplicateVote`,
/// `VoterAlreadyRegistered`, `GuardianAlreadyRegistered`) report a key
/// collision or a missing record. Outcome errors (`QuorumNotReached`,
/// `ProposalNotPassed`) report a resolution that failed on the tallies.
#[derive(Clone, Copy, Debug, PartialEq, Eq, Structural)]
pub enum GovernanceError {
    /// The proposal's EPI score is below the configured threshold.
    EPIBelowThreshold,
    /// The proposal is not in `Active` status.
    ProposalNotActive,
    /// No proposal exists under the given id.
    InvalidProposal,
    /// The current slot is before the proposal's voting window.
    VotingNotStarted,
    /// The current slot is after the proposal's voting window.
    VotingEnded,
    /// The voting window has not closed yet, so resolution is premature.
    VotingNotEnded,
    /// The votes in favour do not exceed the votes against.
    ProposalNotPassed,
    /// The votes cast fall short of the quorum.
    QuorumNotReached,
    /// The caller is not the registry authority.
    Unauthorized,
    /// The caller is not a registered, active guardian.
    NotGuardian,
    /// The proposal's status admits no veto.
    CannotVeto,
    /// The support value is not one of against, for, abstain.
    InvalidVoteType,
    /// The caller has no registered voting power.
    NoVotingPower,
    /// A score exceeds the fixed-point scale of one million.
    InvalidScore,
    /// The title exceeds its length bound.
    TitleTooLong,
    /// The description exceeds its length bound.
    DescriptionTooLong,
    /// The agent id exceeds its length bound.
    AgentIdTooLong,
    /// The action text exceeds its length bound.
    ActionTooLong,
    /// A vote record already exists for this proposal and voter.
    DuplicateVote,
    /// A voter account already exists for this identity.
    VoterAlreadyRegistered,
    /// A guardian account already exists for this identity.
    GuardianAlreadyRegistered,
}

} // verus!
