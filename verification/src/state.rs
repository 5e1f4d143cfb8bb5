//! Data model: registry, proposals, voter and guardian accounts, vote
//! records and thought logs.
//!
//! Identities are opaque numeric handles; the host's identity layer maps
//! real keys to them and is trusted to have authenticated the caller of
//! each operation. Content digests are kept verbatim as 32-byte values
//! addressing off-system storage.

use vstd::prelude::*;

verus! {

/// Longest accepted proposal title, in characters.
pub const MAX_TITLE_LEN: usize = 64;

/// Longest accepted proposal description, in characters.
pub const MAX_DESCRIPTION_LEN: usize = 256;

/// Longest accepted agent id in a thought log, in characters.
pub const MAX_AGENT_ID_LEN: usize = 32;

/// Longest accepted action text in a thought log, in characters.
pub const MAX_ACTION_LEN: usize = 64;

/// Upper bound of the fixed-point score scale (1e6).
pub const MAX_SCORE: u64 = 1_000_000;

/// Denominator of the quorum percentage, in basis points.
pub const BASIS_POINT_DENOMINATOR: u64 = 10_000;

/// Support value of a vote against a proposal.
pub const SUPPORT_AGAINST: u8 = 0;

/// Support value of a vote for a proposal.
pub const SUPPORT_FOR: u8 = 1;

/// Support value of an abstention.
pub const SUPPORT_ABSTAIN: u8 = 2;

/// Lifecycle phase of a proposal.
///
/// A proposal is created `Active` and can only move to `Executed` (through
/// a successful resolution) or to `Vetoed` (through a guardian veto);
/// `Defeated`, `Succeeded` and `Cancelled` are reserved phases that no
/// transition of this engine produces. No transition is ever reversed.
#[derive(Clone, Copy, Debug, PartialEq, Eq, Structural)]
pub enum ProposalStatus {
    Active,
    Defeated,
    Succeeded,
    Executed,
    Vetoed,
    Cancelled,
}

/// Process-wide configuration and aggregate counters. One instance per
/// deployment; counters are mutated only by the operations of the engine.
#[derive(Clone, Copy, Debug, PartialEq, Eq, Structural)]
pub struct Governance {
    /// Identity allowed to register voters, add guardians and update the
    /// EPI threshold.
    pub authority: u64,
    /// Minimum EPI score a proposal must reach, fixed-point scale 1e6.
    pub epi_threshold: u64,
    /// Length of every proposal's voting window, in slots.
    pub voting_period: u64,
    /// Fraction of the total voting power that must be cast before a
    /// proposal can resolve, in basis points of `BASIS_POINT_DENOMINATOR`.
    pub quorum_percentage: u64,
    /// Number of proposals ever created; the next proposal's id.
    pub proposal_count: u64,
    /// Sum of the voting power of all registered voters.
    pub total_voting_power: u64,
    /// Pause flag, reserved for the authority.
    pub is_paused: bool,
}

/// A submitted proposal with its tallies and voting window.
#[derive(Debug)]
pub struct Proposal {
    /// Unique id, assigned densely in creation order.
    pub id: u64,
    /// Identity that submitted the proposal.
    pub proposer: u64,
    /// Short human-readable title, at most `MAX_TITLE_LEN` characters.
    pub title: String,
    /// Longer description, at most `MAX_DESCRIPTION_LEN` characters.
    pub description: String,
    /// Ethical/Profit Index score the proposal was admitted with.
    pub epi_score: u64,
    /// Profit component of the score, at most `MAX_SCORE`.
    pub profit_score: u64,
    /// Ethics component of the score, at most `MAX_SCORE`.
    pub ethics_score: u64,
    /// Digest addressing the proposal's full content off-system.
    pub ipfs_hash: [u8; 32],
    /// Digest addressing the reasoning behind the proposal off-system.
    pub thought_hash: [u8; 32],
    /// Voting power cast in favour.
    pub votes_for: u64,
    /// Voting power cast against.
    pub votes_against: u64,
    /// Voting power cast as abstention.
    pub votes_abstain: u64,
    /// First slot of the voting window.
    pub start_slot: u64,
    /// Last slot of the voting window.
    pub end_slot: u64,
    /// Lifecycle phase.
    pub status: ProposalStatus,
    /// Timestamp of creation.
    pub created_at: i64,
    /// Timestamp of execution, zero until executed.
    pub executed_at: i64,
}

impl Proposal {
    /// Field bounds every stored proposal satisfies: text within its
    /// length bounds, component scores within the fixed-point scale, and
    /// a voting window that does not end before it starts.
    pub open spec fn wf(self) -> bool {
        &&& self.title@.len() <= MAX_TITLE_LEN
        &&& self.description@.len() <= MAX_DESCRIPTION_LEN
        &&& self.profit_score <= MAX_SCORE
        &&& self.ethics_score <= MAX_SCORE
        &&& self.start_slot <= self.end_slot
    }
}

/// A registered voter. Voting power is immutable after creation;
/// re-registration is rejected, not merged.
#[derive(Clone, Copy, Debug, PartialEq, Eq, Structural)]
pub struct VoterAccount {
    /// The voter's identity.
    pub voter: u64,
    /// Weight this voter casts, consumed verbatim by each vote.
    pub voting_power: u64,
    /// Timestamp of registration.
    pub registered_at: i64,
}

/// The immutable record of one cast vote, keyed by proposal and voter.
/// Its existence is the durable proof preventing double voting.
#[derive(Clone, Copy, Debug, PartialEq, Eq, Structural)]
pub struct VoteRecord {
    /// The identity that cast the vote.
    pub voter: u64,
    /// The proposal the vote was cast on.
    pub proposal_id: u64,
    /// One of `SUPPORT_AGAINST`, `SUPPORT_FOR`, `SUPPORT_ABSTAIN`.
    pub support: u8,
    /// The voter's power, snapshotted at cast time.
    pub voting_power: u64,
    /// Timestamp of the cast.
    pub timestamp: i64,
}

/// A guardian empowered to veto proposals regardless of tallies.
#[derive(Clone, Copy, Debug, PartialEq, Eq, Structural)]
pub struct GuardianAccount {
    /// The guardian's identity.
    pub guardian: u64,
    /// Whether the guardian may currently veto; checked at call time.
    pub is_active: bool,
    /// Number of vetoes this guardian has issued.
    pub veto_count: u64,
    /// Timestamp the guardian was added.
    pub added_at: i64,
}

/// One immutable audit record linking an agent's action to off-system
/// reasoning via content digests. Never updated or deleted.
#[derive(Debug)]
pub struct ThoughtLog {
    /// Identifier of the acting agent, at most `MAX_AGENT_ID_LEN`
    /// characters.
    pub agent_id: String,
    /// The action taken, at most `MAX_ACTION_LEN` characters.
    pub action: String,
    /// EPI score of the action.
    pub epi_score: u64,
    /// Digest of the reasoning text.
    pub reasoning_hash: [u8; 32],
    /// Digest of the inputs the agent acted on.
    pub inputs_hash: [u8; 32],
    /// Digest of the outputs the agent produced.
    pub outputs_hash: [u8; 32],
    /// Timestamp of the record.
    pub timestamp: i64,
    /// Identity that logged the record.
    pub logger: u64,
}

impl ThoughtLog {
    /// Field bounds every stored thought log satisfies.
    pub open spec fn wf(self) -> bool {
        &&& self.agent_id@.len() <= MAX_AGENT_ID_LEN
        &&& self.action@.len() <= MAX_ACTION_LEN
    }
}

} // verus!
