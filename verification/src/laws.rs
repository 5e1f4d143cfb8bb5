//! The integrity laws of the engine, stated and proved once over the
//! decision functions and the ledger view that every operation's contract
//! is written in.

use vstd::prelude::*;

use crate::engine::GovernanceState;
use crate::errors::GovernanceError;
use crate::ledger::{
    guardian_active, has_vote_record, has_voter, lemma_record_total_bounded, lemma_tally_split,
    power_of, record_total, registered, tally_power,
};
use crate::state::{ProposalStatus, SUPPORT_ABSTAIN, SUPPORT_AGAINST, SUPPORT_FOR};

verus! {

/// The EPI gate law: a submission whose score is below the threshold is
/// rejected as a validation error. With `submit_proposal`'s contract —
/// which leaves the state untouched on every error — no proposal record
/// is created and the proposal count is unchanged.
pub proof fn lemma_epi_gate_blocks(
    s: GovernanceState,
    title: Seq<char>,
    description: Seq<char>,
    epi_score: u64,
    profit_score: u64,
    ethics_score: u64,
)
    requires
        epi_score < s.governance.epi_threshold,
    ensures
        s.submit_check(title, description, epi_score, profit_score, ethics_score) == Err::<
            u64,
            GovernanceError,
        >(GovernanceError::EPIBelowThreshold),
{
}

/// Ledger consistency: in every well-formed state — and every operation
/// both requires and re-establishes well-formedness — each proposal's
/// three tallies equal the ledger sums of the vote records cast on it,
/// their sum equals the total power cast on the proposal, and that total
/// never exceeds the registered voting power.
pub proof fn lemma_tallies_equal_ledger(s: GovernanceState, proposal_id: u64)
    requires
        s.wf(),
        proposal_id < s.proposals@.len(),
    ensures
        ({
            let p = s.proposals@[proposal_id as int];
            &&& p.votes_for == tally_power(s.vote_records@, proposal_id, SUPPORT_FOR)
            &&& p.votes_against == tally_power(s.vote_records@, proposal_id, SUPPORT_AGAINST)
            &&& p.votes_abstain == tally_power(s.vote_records@, proposal_id, SUPPORT_ABSTAIN)
            &&& p.votes_for + p.votes_against + p.votes_abstain == record_total(
                s.vote_records@,
                proposal_id,
            )
            &&& record_total(s.vote_records@, proposal_id) <= s.governance.total_voting_power
        }),
{
    let rs = s.vote_records@;
    let vs = s.voters@;
    assert forall|i: int, j: int|
        0 <= i < j < rs.len() && (#[trigger] rs[i]).proposal_id == proposal_id && (
        #[trigger] rs[j]).proposal_id == proposal_id implies rs[i].voter != rs[j].voter by {}
    assert forall|k: int|
        0 <= k < rs.len() && (#[trigger] rs[k]).proposal_id == proposal_id implies registered(
        vs,
        rs[k].voter,
        rs[k].voting_power,
    ) by {
        assert(s.record_ok(rs[k]));
    }
    assert forall|k: int| 0 <= k < rs.len() implies (#[trigger] rs[k]).support
        <= SUPPORT_ABSTAIN by {
        assert(s.record_ok(rs[k]));
    }
    lemma_record_total_bounded(rs, vs, proposal_id);
    lemma_tally_split(rs, proposal_id);
}

/// Double-vote exclusion: once a vote record exists for a proposal and
/// voter, no further vote by that voter on that proposal can succeed —
/// and when the proposal is still open to the voter in every other
/// respect, the rejection is precisely the duplicate-vote conflict. With
/// `vote`'s contract, the failed call leaves the tallies unchanged.
pub proof fn lemma_no_double_vote(
    s: GovernanceState,
    proposal_id: u64,
    voter: u64,
    support: u8,
    now_slot: u64,
)
    requires
        has_vote_record(s.vote_records@, proposal_id, voter),
    ensures
        s.vote_check(proposal_id, voter, support, now_slot) is Err,
        ({
            let p = s.proposals@[proposal_id as int];
            proposal_id < s.proposals@.len() && p.status == ProposalStatus::Active
                && p.start_slot <= now_slot <= p.end_slot && support <= SUPPORT_ABSTAIN
                && power_of(s.voters@, voter) != 0
        }) ==> s.vote_check(proposal_id, voter, support, now_slot) == Err::<(), GovernanceError>(
            GovernanceError::DuplicateVote,
        ),
{
}

/// Resolution characterization: executing a proposal succeeds exactly
/// when it exists, its voting window has closed, it is still active, the
/// cast power reaches the quorum, and the votes in favour strictly exceed
/// the votes against. In every other case `execute_proposal` returns an
/// error and, by its contract, mutates nothing.
pub proof fn lemma_execute_characterization(s: GovernanceState, proposal_id: u64, now_slot: u64)
    ensures
        s.execute_check(proposal_id, now_slot) is Ok <==> (proposal_id < s.proposals@.len() && ({
            let p = s.proposals@[proposal_id as int];
            &&& now_slot > p.end_slot
            &&& p.status == ProposalStatus::Active
            &&& p.votes_for + p.votes_against + p.votes_abstain >= s.quorum_votes()
            &&& p.votes_for > p.votes_against
        })),
{
}

/// Veto characterization: a veto succeeds exactly when the proposal
/// exists, the caller is a registered and currently active guardian, and
/// the proposal is `Active` or `Succeeded` — regardless of its tallies,
/// which `veto_proposal`'s contract leaves untouched. Every other phase
/// rejects the veto.
pub proof fn lemma_veto_characterization(s: GovernanceState, proposal_id: u64, guardian: u64)
    ensures
        s.veto_check(proposal_id, guardian) is Ok <==> (proposal_id < s.proposals@.len()
            && guardian_active(s.guardians@, guardian) && ({
            let status = s.proposals@[proposal_id as int].status;
            status == ProposalStatus::Active || status == ProposalStatus::Succeeded
        })),
{
}

/// Registration is not idempotent by design: registering an identity
/// that already holds a voter account always fails — as a conflict when
/// the caller is the authority — and by `register_voter`'s contract the
/// total voting power is not increased a second time.
pub proof fn lemma_register_rejects_duplicate(s: GovernanceState, authority: u64, voter: u64)
    requires
        has_voter(s.voters@, voter),
    ensures
        !(s.register_check(authority, voter) is Ok),
        authority == s.governance.authority ==> s.register_check(authority, voter) == Err::<
            (),
            GovernanceError,
        >(GovernanceError::VoterAlreadyRegistered),
{
}

/// Terminal phases are final: no vote, resolution or veto applies to a
/// proposal that is `Executed`, `Defeated`, `Vetoed` or `Cancelled`.
/// Since every operation's contract leaves the state unchanged on error,
/// a proposal's status never moves out of a terminal phase.
pub proof fn lemma_terminal_status_is_final(
    s: GovernanceState,
    proposal_id: u64,
    voter: u64,
    support: u8,
    guardian: u64,
    now_slot: u64,
)
    requires
        proposal_id < s.proposals@.len(),
        ({
            let status = s.proposals@[proposal_id as int].status;
            status != ProposalStatus::Active && status != ProposalStatus::Succeeded
        }),
    ensures
        s.vote_check(proposal_id, voter, support, now_slot) is Err,
        s.execute_check(proposal_id, now_slot) is Err,
        s.veto_check(proposal_id, guardian) is Err,
{
}

} // verus!
