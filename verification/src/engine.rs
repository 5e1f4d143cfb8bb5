//! The governance engine: one owned aggregate holding the registry, the
//! directories, the proposals, the vote ledger, the thought log and the
//! event list, with one method per operation.
//!
//! Every operation is a single atomic step: it either fully commits its
//! state changes and appends one event, or returns an error and changes
//! nothing. The host supplies the authenticated caller identity, the
//! current slot and the current time as arguments.

use vstd::prelude::*;
use vstd::string::StrSliceExecFns;

use crate::errors::GovernanceError;
use crate::events::{
    EPIThresholdUpdated, GovernanceEvent, GovernanceInitialized, GuardianAdded, ProposalExecuted,
    ProposalSubmitted, ProposalVetoed, ThoughtLogged, VoteCast, VoterRegistered,
};
use crate::ledger::{
    distinct_guardians, distinct_records, distinct_voters, guardian_active, has_guardian,
    has_vote_record, has_voter, lemma_record_total_bounded, lemma_record_total_push,
    lemma_sum_powers_push, lemma_tally_absent, lemma_tally_power_nonneg, lemma_tally_power_push,
    lemma_tally_split, power_of, registered, sum_powers, tally_power,
};
use crate::state::{
    Governance, GuardianAccount, Proposal, ProposalStatus, ThoughtLog, VoteRecord, VoterAccount,
    BASIS_POINT_DENOMINATOR, MAX_ACTION_LEN, MAX_AGENT_ID_LEN, MAX_DESCRIPTION_LEN, MAX_SCORE,
    MAX_TITLE_LEN, SUPPORT_ABSTAIN, SUPPORT_AGAINST, SUPPORT_FOR,
};

verus! {

/// The whole governance deployment: configuration, directories, proposals,
/// the vote ledger, the thought log and the pending events.
pub struct GovernanceState {
    /// Configuration and aggregate counters.
    pub governance: Governance,
    /// All proposals ever created, indexed by their dense ids.
    pub proposals: Vec<Proposal>,
    /// The voter directory.
    pub voters: Vec<VoterAccount>,
    /// The guardian directory.
    pub guardians: Vec<GuardianAccount>,
    /// One immutable record per cast vote.
    pub vote_records: Vec<VoteRecord>,
    /// The append-only thought log.
    pub thought_logs: Vec<ThoughtLog>,
    /// Events of successful operations, for the host to drain.
    pub events: Vec<GovernanceEvent>,
}

/// The tallies of `p` equal the ledger sums of the records cast on it.
pub open spec fn proposal_tallies_match(p: Proposal, records: Seq<VoteRecord>) -> bool {
    &&& p.votes_for == tally_power(records, p.id, SUPPORT_FOR)
    &&& p.votes_against == tally_power(records, p.id, SUPPORT_AGAINST)
    &&& p.votes_abstain == tally_power(records, p.id, SUPPORT_ABSTAIN)
}

/// The proposal `p` with `power` more votes on the given support tally.
pub open spec fn apply_vote(p: Proposal, support: u8, power: u64) -> Proposal {
    if support == SUPPORT_AGAINST {
        Proposal { votes_against: (p.votes_against + power) as u64, ..p }
    } else if support == SUPPORT_FOR {
        Proposal { votes_for: (p.votes_for + power) as u64, ..p }
    } else {
        Proposal { votes_abstain: (p.votes_abstain + power) as u64, ..p }
    }
}

impl GovernanceState {
    /// One vote record is well formed: a known support value, a positive
    /// power snapshotted from a registered voter, on an existing proposal.
    pub open spec fn record_ok(self, r: VoteRecord) -> bool {
        &&& r.support <= SUPPORT_ABSTAIN
        &&& r.voting_power > 0
        &&& r.proposal_id < self.proposals@.len()
        &&& registered(self.voters@, r.voter, r.voting_power)
    }

    /// The integrity invariant of the whole deployment. Every operation
    /// requires it and preserves it:
    /// proposal ids are dense and assigned in creation order; every stored
    /// record satisfies its field bounds; identities are registered at
    /// most once; at most one vote record exists per proposal and voter;
    /// every tally equals the ledger sum of its records; and the total
    /// voting power equals the sum over the voter directory.
    pub open spec fn wf(self) -> bool {
        &&& self.governance.quorum_percentage <= BASIS_POINT_DENOMINATOR
        &&& self.governance.proposal_count == self.proposals@.len()
        &&& forall|i: int|
            0 <= i < self.proposals@.len() ==> (#[trigger] self.proposals@[i]).id == i
        &&& forall|i: int| 0 <= i < self.proposals@.len() ==> (#[trigger] self.proposals@[i]).wf()
        &&& forall|i: int|
            0 <= i < self.proposals@.len() ==> proposal_tallies_match(
                #[trigger] self.proposals@[i],
                self.vote_records@,
            )
        &&& distinct_voters(self.voters@)
        &&& distinct_guardians(self.guardians@)
        &&& distinct_records(self.vote_records@)
        &&& forall|k: int|
            0 <= k < self.vote_records@.len() ==> self.record_ok(#[trigger] self.vote_records@[k])
        &&& self.governance.total_voting_power == sum_powers(self.voters@)
        &&& forall|k: int|
            0 <= k < self.thought_logs@.len() ==> (#[trigger] self.thought_logs@[k]).wf()
    }

    /// Minimum cast power for a proposal to resolve: the configured
    /// basis-point fraction of the total registered voting power,
    /// truncating.
    pub open spec fn quorum_votes(self) -> int {
        self.governance.total_voting_power as int * self.governance.quorum_percentage as int
            / (BASIS_POINT_DENOMINATOR as int)
    }

    /// Decision of `submit_proposal`: the EPI gate first, then the field
    /// bounds; on success the new proposal's id, which is the current
    /// proposal count.
    pub open spec fn submit_check(
        self,
        title: Seq<char>,
        description: Seq<char>,
        epi_score: u64,
        profit_score: u64,
        ethics_score: u64,
    ) -> Result<u64, GovernanceError> {
        if epi_score < self.governance.epi_threshold {
            Err(GovernanceError::EPIBelowThreshold)
        } else if title.len() > MAX_TITLE_LEN {
            Err(GovernanceError::TitleTooLong)
        } else if description.len() > MAX_DESCRIPTION_LEN {
            Err(GovernanceError::DescriptionTooLong)
        } else if profit_score > MAX_SCORE {
            Err(GovernanceError::InvalidScore)
        } else if ethics_score > MAX_SCORE {
            Err(GovernanceError::InvalidScore)
        } else {
            Ok(self.governance.proposal_count)
        }
    }

    /// Decision of `vote`: the proposal must exist and be active, the
    /// current slot must lie in its window, the support value must be
    /// known, the voter must hold positive power, and no record may exist
    /// yet for this proposal and voter.
    pub open spec fn vote_check(self, proposal_id: u64, voter: u64, support: u8, now_slot: u64) -> Result<
        (),
        GovernanceError,
    > {
        if proposal_id >= self.proposals@.len() {
            Err(GovernanceError::InvalidProposal)
        } else {
            let p = self.proposals@[proposal_id as int];
            if p.status != ProposalStatus::Active {
                Err(GovernanceError::ProposalNotActive)
            } else if now_slot < p.start_slot {
                Err(GovernanceError::VotingNotStarted)
            } else if now_slot > p.end_slot {
                Err(GovernanceError::VotingEnded)
            } else if support > SUPPORT_ABSTAIN {
                Err(GovernanceError::InvalidVoteType)
            } else if power_of(self.voters@, voter) == 0 {
                Err(GovernanceError::NoVotingPower)
            } else if has_vote_record(self.vote_records@, proposal_id, voter) {
                Err(GovernanceError::DuplicateVote)
            } else {
                Ok(())
            }
        }
    }

    /// Decision of `execute_proposal`: the proposal must exist, its window
    /// must have closed, it must still be active, the cast power must
    /// reach the quorum, and the votes in favour must exceed the votes
    /// against.
    pub open spec fn execute_check(self, proposal_id: u64, now_slot: u64) -> Result<
        (),
        GovernanceError,
    > {
        if proposal_id >= self.proposals@.len() {
            Err(GovernanceError::InvalidProposal)
        } else {
            let p = self.proposals@[proposal_id as int];
            if now_slot <= p.end_slot {
                Err(GovernanceError::VotingNotEnded)
            } else if p.status != ProposalStatus::Active {
                Err(GovernanceError::ProposalNotActive)
            } else if p.votes_for + p.votes_against + p.votes_abstain < self.quorum_votes() {
                Err(GovernanceError::QuorumNotReached)
            } else if p.votes_for <= p.votes_against {
                Err(GovernanceError::ProposalNotPassed)
            } else {
                Ok(())
            }
        }
    }

    /// Decision of `veto_proposal`: the proposal must exist, the caller
    /// must be a registered and currently active guardian, and the
    /// proposal must be in a phase a veto can halt.
    pub open spec fn veto_check(self, proposal_id: u64, guardian: u64) -> Result<
        (),
        GovernanceError,
    > {
        if proposal_id >= self.proposals@.len() {
            Err(GovernanceError::InvalidProposal)
        } else if !guardian_active(self.guardians@, guardian) {
            Err(GovernanceError::NotGuardian)
        } else {
            let p = self.proposals@[proposal_id as int];
            if p.status == ProposalStatus::Active || p.status == ProposalStatus::Succeeded {
                Ok(())
            } else {
                Err(GovernanceError::CannotVeto)
            }
        }
    }

    /// Decision of `register_voter`: authority only, and the identity must
    /// not be registered yet.
    pub open spec fn register_check(self, authority: u64, voter: u64) -> Result<
        (),
        GovernanceError,
    > {
        if authority != self.governance.authority {
            Err(GovernanceError::Unauthorized)
        } else if has_voter(self.voters@, voter) {
            Err(GovernanceError::VoterAlreadyRegistered)
        } else {
            Ok(())
        }
    }

    /// Decision of `add_guardian`: authority only, and the identity must
    /// not be a guardian yet.
    pub open spec fn add_guardian_check(self, authority: u64, new_guardian: u64) -> Result<
        (),
        GovernanceError,
    > {
        if authority != self.governance.authority {
            Err(GovernanceError::Unauthorized)
        } else if has_guardian(self.guardians@, new_guardian) {
            Err(GovernanceError::GuardianAlreadyRegistered)
        } else {
            Ok(())
        }
    }

    /// Decision of `update_epi_threshold`: authority only.
    pub open spec fn update_threshold_check(self, authority: u64) -> Result<
        (),
        GovernanceError,
    > {
        if authority != self.governance.authority {
            Err(GovernanceError::Unauthorized)
        } else {
            Ok(())
        }
    }

    /// Decision of `log_thought`: the text bounds; on success the id of
    /// the new record, which is its index in the log.
    pub open spec fn log_check(self, agent_id: Seq<char>, action: Seq<char>) -> Result<
        u64,
        GovernanceError,
    > {
        if agent_id.len() > MAX_AGENT_ID_LEN {
            Err(GovernanceError::AgentIdTooLong)
        } else if action.len() > MAX_ACTION_LEN {
            Err(GovernanceError::ActionTooLong)
        } else {
            Ok(self.thought_logs@.len() as u64)
        }
    }

    /// Create the registry of a fresh deployment with its configuration,
    /// no proposals, no voters, no guardians and an empty ledger, and emit
    /// the initialization event. The quorum percentage is a basis-point
    /// fraction and cannot exceed its denominator.
    pub fn initialize(
        authority: u64,
        epi_threshold: u64,
        voting_period: u64,
        quorum_percentage: u64,
        now_ts: i64,
    ) -> (r: GovernanceState)
        requires
            quorum_percentage <= BASIS_POINT_DENOMINATOR,
        ensures
            r.wf(),
            r.governance == (Governance {
                authority,
                epi_threshold,
                voting_period,
                quorum_percentage,
                proposal_count: 0,
                total_voting_power: 0,
                is_paused: false,
            }),
            r.proposals@ == Seq::<Proposal>::empty(),
            r.voters@ == Seq::<VoterAccount>::empty(),
            r.guardians@ == Seq::<GuardianAccount>::empty(),
            r.vote_records@ == Seq::<VoteRecord>::empty(),
            r.thought_logs@ == Seq::<ThoughtLog>::empty(),
            r.events@ == Seq::<GovernanceEvent>::empty().push(
                GovernanceEvent::GovernanceInitialized(GovernanceInitialized {
                    authority,
                    epi_threshold,
                    voting_period,
                    timestamp: now_ts,
                }),
            ),
    {
        let mut events: Vec<GovernanceEvent> = Vec::new();
        events.push(GovernanceEvent::GovernanceInitialized(GovernanceInitialized {
            authority,
            epi_threshold,
            voting_period,
            timestamp: now_ts,
        }));
        GovernanceState {
            governance: Governance {
                authority,
                epi_threshold,
                voting_period,
                quorum_percentage,
                proposal_count: 0,
                total_voting_power: 0,
                is_paused: false,
            },
            proposals: Vec::new(),
            voters: Vec::new(),
            guardians: Vec::new(),
            vote_records: Vec::new(),
            thought_logs: Vec::new(),
            events,
        }
    }

    /// Register `voter` with `voting_power`, adding that power to the
    /// registered total. Authority only; an already registered identity is
    /// rejected and nothing changes, so the total is never counted twice.
    /// The host keeps the running total within the machine word.
    pub fn register_voter(
        &mut self,
        authority: u64,
        voter: u64,
        voting_power: u64,
        now_ts: i64,
    ) -> (r: Result<(), GovernanceError>)
        requires
            old(self).wf(),
            old(self).governance.total_voting_power + voting_power <= u64::MAX,
        ensures
            final(self).wf(),
            r == old(self).register_check(authority, voter),
            r is Ok ==> final(self).voters@ == old(self).voters@.push(
                VoterAccount { voter, voting_power, registered_at: now_ts },
            ),
            r is Ok ==> final(self).governance == (Governance {
                total_voting_power: (old(self).governance.total_voting_power + voting_power) as u64,
                ..old(self).governance
            }),
            r is Ok ==> final(self).events@ == old(self).events@.push(
                GovernanceEvent::VoterRegistered(VoterRegistered {
                    voter,
                    voting_power,
                    timestamp: now_ts,
                }),
            ),
            r is Ok ==> final(self).proposals@ == old(self).proposals@ && final(self).guardians@
                == old(self).guardians@ && final(self).vote_records@ == old(self).vote_records@
                && final(self).thought_logs@ == old(self).thought_logs@,
            r is Err ==> *final(self) == *old(self),
    {
        if authority != self.governance.authority {
            return Err(GovernanceError::Unauthorized);
        }
        if find_voter_index(&self.voters, voter).is_some() {
            return Err(GovernanceError::VoterAlreadyRegistered);
        }
        let account = VoterAccount { voter, voting_power, registered_at: now_ts };
        proof {
            lemma_sum_powers_push(self.voters@, account);
        }
        self.voters.push(account);
        self.governance.total_voting_power = self.governance.total_voting_power + voting_power;
        self.events.push(GovernanceEvent::VoterRegistered(VoterRegistered {
            voter,
            voting_power,
            timestamp: now_ts,
        }));
        proof {
            let voters = self.voters@;
            let n = voters.len() - 1;
            assert forall|i: int, j: int| 0 <= i < j < voters.len() implies #[trigger] voters[i].voter
                != #[trigger] voters[j].voter by {
                if j == n {
                    assert(voters[i] == old(self).voters@[i]);
                }
            }
            assert forall|k: int|
                0 <= k < self.vote_records@.len() implies self.record_ok(
                #[trigger] self.vote_records@[k],
            ) by {
                let rec = self.vote_records@[k];
                assert(old(self).record_ok(rec));
                let w = choose|w: int|
                    0 <= w < old(self).voters@.len() && old(self).voters@[w].voter == rec.voter
                        && old(self).voters@[w].voting_power == rec.voting_power;
                assert(voters[w] == old(self).voters@[w]);
            }
        }
        Ok(())
    }

    /// Add `new_guardian` as an active guardian with no vetoes issued.
    /// Authority only; an identity that is already a guardian is rejected.
    pub fn add_guardian(&mut self, authority: u64, new_guardian: u64, now_ts: i64) -> (r: Result<
        (),
        GovernanceError,
    >)
        requires
            old(self).wf(),
        ensures
            final(self).wf(),
            r == old(self).add_guardian_check(authority, new_guardian),
            r is Ok ==> final(self).guardians@ == old(self).guardians@.push(
                GuardianAccount {
                    guardian: new_guardian,
                    is_active: true,
                    veto_count: 0,
                    added_at: now_ts,
                },
            ),
            r is Ok ==> final(self).events@ == old(self).events@.push(
                GovernanceEvent::GuardianAdded(GuardianAdded {
                    guardian: new_guardian,
                    timestamp: now_ts,
                }),
            ),
            r is Ok ==> final(self).governance == old(self).governance && final(self).proposals@
                == old(self).proposals@ && final(self).voters@ == old(self).voters@
                && final(self).vote_records@ == old(self).vote_records@
                && final(self).thought_logs@ == old(self).thought_logs@,
            r is Err ==> *final(self) == *old(self),
    {
        if authority != self.governance.authority {
            return Err(GovernanceError::Unauthorized);
        }
        if find_guardian_index(&self.guardians, new_guardian).is_some() {
            return Err(GovernanceError::GuardianAlreadyRegistered);
        }
        self.guardians.push(GuardianAccount {
            guardian: new_guardian,
            is_active: true,
            veto_count: 0,
            added_at: now_ts,
        });
        self.events.push(GovernanceEvent::GuardianAdded(GuardianAdded {
            guardian: new_guardian,
            timestamp: now_ts,
        }));
        proof {
            let guardians = self.guardians@;
            let n = guardians.len() - 1;
            assert forall|i: int, j: int| 0 <= i < j < guardians.len() implies #[trigger] guardians[i].guardian
                != #[trigger] guardians[j].guardian by {
                if j == n {
                    assert(guardians[i] == old(self).guardians@[i]);
                }
            }
        }
        Ok(())
    }

    /// Submit a proposal. The EPI gate is consulted first: a score below
    /// the threshold is rejected outright, with no record created and no
    /// counter changed. An admitted proposal is created `Active` with the
    /// next dense id, zero tallies, and a voting window of the configured
    /// period starting at the current slot. The host keeps the proposal
    /// counter and the window's end within the machine word.
    pub fn submit_proposal(
        &mut self,
        proposer: u64,
        title: String,
        description: String,
        epi_score: u64,
        profit_score: u64,
        ethics_score: u64,
        ipfs_hash: [u8; 32],
        thought_hash: [u8; 32],
        now_slot: u64,
        now_ts: i64,
    ) -> (r: Result<u64, GovernanceError>)
        requires
            old(self).wf(),
            old(self).governance.proposal_count < u64::MAX,
            now_slot + old(self).governance.voting_period <= u64::MAX,
        ensures
            final(self).wf(),
            r == old(self).submit_check(title@, description@, epi_score, profit_score, ethics_score),
            r matches Ok(id) ==> ({
                let end_slot = (now_slot + old(self).governance.voting_period) as u64;
                let p = final(self).proposals@.last();
                &&& id == old(self).governance.proposal_count
                &&& final(self).proposals@.len() == old(self).proposals@.len() + 1
                &&& final(self).proposals@.drop_last() == old(self).proposals@
                &&& p.id == id
                &&& p.proposer == proposer
                &&& p.title@ == title@
                &&& p.description == description
                &&& p.epi_score == epi_score
                &&& p.profit_score == profit_score
                &&& p.ethics_score == ethics_score
                &&& p.ipfs_hash == ipfs_hash
                &&& p.thought_hash == thought_hash
                &&& p.votes_for == 0
                &&& p.votes_against == 0
                &&& p.votes_abstain == 0
                &&& p.start_slot == now_slot
                &&& p.end_slot == end_slot
                &&& p.status == ProposalStatus::Active
                &&& p.created_at == now_ts
                &&& p.executed_at == 0
                &&& final(self).governance == (Governance {
                    proposal_count: (old(self).governance.proposal_count + 1) as u64,
                    ..old(self).governance
                })
                &&& final(self).events@ == old(self).events@.push(
                    GovernanceEvent::ProposalSubmitted(ProposalSubmitted {
                        proposal_id: id,
                        proposer,
                        title,
                        epi_score,
                        start_slot: now_slot,
                        end_slot,
                        timestamp: now_ts,
                    }),
                )
                &&& final(self).voters@ == old(self).voters@
                &&& final(self).guardians@ == old(self).guardians@
                &&& final(self).vote_records@ == old(self).vote_records@
                &&& final(self).thought_logs@ == old(self).thought_logs@
            }),
            r is Err ==> *final(self) == *old(self),
    {
        if epi_score < self.governance.epi_threshold {
            return Err(GovernanceError::EPIBelowThreshold);
        }
        if title.as_str().unicode_len() > MAX_TITLE_LEN {
            return Err(GovernanceError::TitleTooLong);
        }
        if description.as_str().unicode_len() > MAX_DESCRIPTION_LEN {
            return Err(GovernanceError::DescriptionTooLong);
        }
        if profit_score > MAX_SCORE {
            return Err(GovernanceError::InvalidScore);
        }
        if ethics_score > MAX_SCORE {
            return Err(GovernanceError::InvalidScore);
        }
        let id = self.governance.proposal_count;
        let end_slot = now_slot + self.governance.voting_period;
        proof {
            assert forall|k: int|
                0 <= k < self.vote_records@.len() implies (#[trigger] self.vote_records@[k]).proposal_id
                != id by {
                assert(self.record_ok(self.vote_records@[k]));
            }
            lemma_tally_absent(self.vote_records@, id);
        }
        self.proposals.push(Proposal {
            id,
            proposer,
            title: title.clone(),
            description,
            epi_score,
            profit_score,
            ethics_score,
            ipfs_hash,
            thought_hash,
            votes_for: 0,
            votes_against: 0,
            votes_abstain: 0,
            start_slot: now_slot,
            end_slot,
            status: ProposalStatus::Active,
            created_at: now_ts,
            executed_at: 0,
        });
        self.governance.proposal_count = id + 1;
        self.events.push(GovernanceEvent::ProposalSubmitted(ProposalSubmitted {
            proposal_id: id,
            proposer,
            title,
            epi_score,
            start_slot: now_slot,
            end_slot,
            timestamp: now_ts,
        }));
        proof {
            let n = old(self).proposals@.len() as int;
            assert(self.proposals@.drop_last() =~= old(self).proposals@);
            assert forall|i: int| 0 <= i < self.proposals@.len() implies (
            #[trigger] self.proposals@[i]).id == i && self.proposals@[i].wf()
                && proposal_tallies_match(self.proposals@[i], self.vote_records@) by {
                if i < n {
                    assert(self.proposals@[i] == old(self).proposals@[i]);
                } else {
                    assert(tally_power(self.vote_records@, id, SUPPORT_FOR) == 0);
                    assert(tally_power(self.vote_records@, id, SUPPORT_AGAINST) == 0);
                    assert(tally_power(self.vote_records@, id, SUPPORT_ABSTAIN) == 0);
                }
            }
            assert forall|k: int|
                0 <= k < self.vote_records@.len() implies self.record_ok(
                #[trigger] self.vote_records@[k],
            ) by {
                assert(old(self).record_ok(self.vote_records@[k]));
            }
        }
        Ok(id)
    }

    /// Cast a vote on an active proposal within its window. The voter's
    /// registered power is snapshotted into an immutable record — at most
    /// one per proposal and voter — and added to the tally named by
    /// `support`. The addition cannot overflow: one record per voter
    /// bounds the cast power by the registered total.
    pub fn vote(
        &mut self,
        proposal_id: u64,
        voter: u64,
        support: u8,
        reason: String,
        now_slot: u64,
        now_ts: i64,
    ) -> (r: Result<(), GovernanceError>)
        requires
            old(self).wf(),
        ensures
            final(self).wf(),
            r == old(self).vote_check(proposal_id, voter, support, now_slot),
            r is Ok ==> ({
                let power = power_of(old(self).voters@, voter);
                &&& final(self).vote_records@ == old(self).vote_records@.push(
                    VoteRecord {
                        voter,
                        proposal_id,
                        support,
                        voting_power: power,
                        timestamp: now_ts,
                    },
                )
                &&& final(self).proposals@ == old(self).proposals@.update(
                    proposal_id as int,
                    apply_vote(old(self).proposals@[proposal_id as int], support, power),
                )
                &&& final(self).events@ == old(self).events@.push(
                    GovernanceEvent::VoteCast(VoteCast {
                        proposal_id,
                        voter,
                        support,
                        voting_power: power,
                        reason,
                        timestamp: now_ts,
                    }),
                )
                &&& final(self).governance == old(self).governance
                &&& final(self).voters@ == old(self).voters@
                &&& final(self).guardians@ == old(self).guardians@
                &&& final(self).thought_logs@ == old(self).thought_logs@
            }),
            r is Err ==> *final(self) == *old(self),
    {
        if proposal_id >= self.proposals.len() as u64 {
            return Err(GovernanceError::InvalidProposal);
        }
        let idx = proposal_id as usize;
        if self.proposals[idx].status != ProposalStatus::Active {
            return Err(GovernanceError::ProposalNotActive);
        }
        if now_slot < self.proposals[idx].start_slot {
            return Err(GovernanceError::VotingNotStarted);
        }
        if now_slot > self.proposals[idx].end_slot {
            return Err(GovernanceError::VotingEnded);
        }
        if support > SUPPORT_ABSTAIN {
            return Err(GovernanceError::InvalidVoteType);
        }
        let power: u64 = match find_voter_index(&self.voters, voter) {
            None => 0,
            Some(vi) => self.voters[vi].voting_power,
        };
        proof {
            let vs = self.voters@;
            if has_voter(vs, voter) {
                let j = choose|j: int| 0 <= j < vs.len() && vs[j].voter == voter;
                assert forall|a: int, b: int|
                    0 <= a < vs.len() && 0 <= b < vs.len() && vs[a].voter == voter && vs[b].voter
                        == voter implies a == b by {
                    if a < b {
                        assert(vs[a].voter != vs[b].voter);
                    } else if b < a {
                        assert(vs[b].voter != vs[a].voter);
                    }
                }
            }
            assert(power == power_of(vs, voter));
        }
        if power == 0 {
            return Err(GovernanceError::NoVotingPower);
        }
        if record_exists(&self.vote_records, proposal_id, voter) {
            return Err(GovernanceError::DuplicateVote);
        }
        let record = VoteRecord { voter, proposal_id, support, voting_power: power, timestamp: now_ts };
        proof {
            let rs = self.vote_records@;
            let vs = self.voters@;
            let rs2 = rs.push(record);
            assert(registered(vs, voter, power)) by {
                let j = choose|j: int| 0 <= j < vs.len() && vs[j].voter == voter;
                assert(vs[j].voter == voter && vs[j].voting_power == power);
            }
            assert forall|i: int, j: int|
                0 <= i < j < rs2.len() && (#[trigger] rs2[i]).proposal_id == proposal_id && (
                #[trigger] rs2[j]).proposal_id == proposal_id implies rs2[i].voter != rs2[j].voter by {
                if j < rs.len() {
                    assert(rs2[i] == rs[i]);
                    assert(rs2[j] == rs[j]);
                } else {
                    assert(rs2[j] == record);
                    assert(rs2[i] == rs[i]);
                }
            }
            assert forall|k: int|
                0 <= k < rs2.len() && (#[trigger] rs2[k]).proposal_id == proposal_id implies registered(
                vs,
                rs2[k].voter,
                rs2[k].voting_power,
            ) by {
                if k < rs.len() {
                    assert(rs2[k] == rs[k]);
                    assert(old(self).record_ok(rs[k]));
                } else {
                    assert(rs2[k] == record);
                }
            }
            assert forall|k: int| 0 <= k < rs2.len() implies (#[trigger] rs2[k]).support
                <= SUPPORT_ABSTAIN by {
                if k < rs.len() {
                    assert(rs2[k] == rs[k]);
                    assert(old(self).record_ok(rs[k]));
                } else {
                    assert(rs2[k] == record);
                }
            }
            assert forall|k: int| 0 <= k < rs.len() implies (#[trigger] rs[k]).support
                <= SUPPORT_ABSTAIN by {
                assert(old(self).record_ok(rs[k]));
            }
            lemma_record_total_bounded(rs2, vs, proposal_id);
            lemma_record_total_push(rs, record, proposal_id);
            lemma_tally_split(rs2, proposal_id);
            lemma_tally_split(rs, proposal_id);
            lemma_tally_power_push(rs, record, proposal_id, SUPPORT_AGAINST);
            lemma_tally_power_push(rs, record, proposal_id, SUPPORT_FOR);
            lemma_tally_power_push(rs, record, proposal_id, SUPPORT_ABSTAIN);
            lemma_tally_power_nonneg(rs2, proposal_id, SUPPORT_AGAINST);
            lemma_tally_power_nonneg(rs2, proposal_id, SUPPORT_FOR);
            lemma_tally_power_nonneg(rs2, proposal_id, SUPPORT_ABSTAIN);
            assert(tally_power(rs, proposal_id, support) + power <= sum_powers(vs));
        }
        self.vote_records.push(record);
        let p = &mut self.proposals[idx];
        if support == SUPPORT_AGAINST {
            p.votes_against = p.votes_against + power;
        } else if support == SUPPORT_FOR {
            p.votes_for = p.votes_for + power;
        } else {
            p.votes_abstain = p.votes_abstain + power;
        }
        self.events.push(GovernanceEvent::VoteCast(VoteCast {
            proposal_id,
            voter,
            support,
            voting_power: power,
            reason,
            timestamp: now_ts,
        }));
        proof {
            let rs = old(self).vote_records@;
            let rs2 = self.vote_records@;
            let pid = proposal_id as int;
            assert(self.proposals@[pid] == apply_vote(old(self).proposals@[pid], support, power));
            assert forall|i: int| 0 <= i < self.proposals@.len() implies (
            #[trigger] self.proposals@[i]).id == i && self.proposals@[i].wf()
                && proposal_tallies_match(self.proposals@[i], rs2) by {
                if i != pid {
                    let q = self.proposals@[i];
                    assert(q == old(self).proposals@[i]);
                    lemma_tally_power_push(rs, record, q.id, SUPPORT_AGAINST);
                    lemma_tally_power_push(rs, record, q.id, SUPPORT_FOR);
                    lemma_tally_power_push(rs, record, q.id, SUPPORT_ABSTAIN);
                }
            }
            assert forall|i: int, j: int| 0 <= i < j < rs2.len() implies !((
            #[trigger] rs2[i]).proposal_id == (#[trigger] rs2[j]).proposal_id && rs2[i].voter
                == rs2[j].voter) by {
                if j < rs.len() {
                    assert(rs2[i] == rs[i]);
                    assert(rs2[j] == rs[j]);
                } else {
                    assert(rs2[j] == record);
                    assert(rs2[i] == rs[i]);
                }
            }
            assert forall|k: int| 0 <= k < rs2.len() implies self.record_ok(#[trigger] rs2[k]) by {
                if k < rs.len() {
                    assert(rs2[k] == rs[k]);
                    assert(old(self).record_ok(rs[k]));
                } else {
                    assert(rs2[k] == record);
                }
            }
        }
        Ok(())
    }

    /// Resolve a proposal once its voting window has closed: it executes
    /// exactly when the cast power reaches the quorum and the votes in
    /// favour exceed the votes against; otherwise it fails
    /// deterministically with no mutation at all. A proposal that fails
    /// quorum or majority deliberately stays `Active` rather than moving
    /// to `Defeated`, so the failure is an outcome error, not a
    /// transition; only a veto retires such a proposal.
    pub fn execute_proposal(
        &mut self,
        proposal_id: u64,
        executor: u64,
        now_slot: u64,
        now_ts: i64,
    ) -> (r: Result<(), GovernanceError>)
        requires
            old(self).wf(),
        ensures
            final(self).wf(),
            r == old(self).execute_check(proposal_id, now_slot),
            r is Ok ==> ({
                let p = old(self).proposals@[proposal_id as int];
                &&& final(self).proposals@ == old(self).proposals@.update(
                    proposal_id as int,
                    (Proposal { status: ProposalStatus::Executed, executed_at: now_ts, ..p }),
                )
                &&& final(self).events@ == old(self).events@.push(
                    GovernanceEvent::ProposalExecuted(ProposalExecuted {
                        proposal_id,
                        executor,
                        votes_for: p.votes_for,
                        votes_against: p.votes_against,
                        timestamp: now_ts,
                    }),
                )
                &&& final(self).governance == old(self).governance
                &&& final(self).voters@ == old(self).voters@
                &&& final(self).guardians@ == old(self).guardians@
                &&& final(self).vote_records@ == old(self).vote_records@
                &&& final(self).thought_logs@ == old(self).thought_logs@
            }),
            r is Err ==> *final(self) == *old(self),
    {
        if proposal_id >= self.proposals.len() as u64 {
            return Err(GovernanceError::InvalidProposal);
        }
        let idx = proposal_id as usize;
        if now_slot <= self.proposals[idx].end_slot {
            return Err(GovernanceError::VotingNotEnded);
        }
        if self.proposals[idx].status != ProposalStatus::Active {
            return Err(GovernanceError::ProposalNotActive);
        }
        let vf = self.proposals[idx].votes_for;
        let va = self.proposals[idx].votes_against;
        let vab = self.proposals[idx].votes_abstain;
        let tvp = self.governance.total_voting_power;
        let qp = self.governance.quorum_percentage;
        proof {
            let rs = self.vote_records@;
            let vs = self.voters@;
            assert forall|i: int, j: int|
                0 <= i < j < rs.len() && (#[trigger] rs[i]).proposal_id == proposal_id && (
                #[trigger] rs[j]).proposal_id == proposal_id implies rs[i].voter != rs[j].voter by {}
            assert forall|k: int|
                0 <= k < rs.len() && (#[trigger] rs[k]).proposal_id == proposal_id implies registered(
                vs,
                rs[k].voter,
                rs[k].voting_power,
            ) by {
                assert(self.record_ok(rs[k]));
            }
            assert forall|k: int| 0 <= k < rs.len() implies (#[trigger] rs[k]).support
                <= SUPPORT_ABSTAIN by {
                assert(self.record_ok(rs[k]));
            }
            lemma_record_total_bounded(rs, vs, proposal_id);
            lemma_tally_split(rs, proposal_id);
            lemma_tally_power_nonneg(rs, proposal_id, SUPPORT_AGAINST);
            lemma_tally_power_nonneg(rs, proposal_id, SUPPORT_FOR);
            lemma_tally_power_nonneg(rs, proposal_id, SUPPORT_ABSTAIN);
            assert(vf + va + vab <= tvp);
            assert((tvp as int) * (qp as int) <= (u64::MAX as int) * (
            BASIS_POINT_DENOMINATOR as int)) by (nonlinear_arith)
                requires
                    tvp <= u64::MAX,
                    qp <= BASIS_POINT_DENOMINATOR,
            ;
        }
        let total_votes = vf + va + vab;
        let quorum_scaled: u128 = (tvp as u128) * (qp as u128) / (BASIS_POINT_DENOMINATOR as u128);
        if (total_votes as u128) < quorum_scaled {
            return Err(GovernanceError::QuorumNotReached);
        }
        if vf <= va {
            return Err(GovernanceError::ProposalNotPassed);
        }
        let p = &mut self.proposals[idx];
        p.status = ProposalStatus::Executed;
        p.executed_at = now_ts;
        self.events.push(GovernanceEvent::ProposalExecuted(ProposalExecuted {
            proposal_id,
            executor,
            votes_for: vf,
            votes_against: va,
            timestamp: now_ts,
        }));
        proof {
            assert forall|i: int| 0 <= i < self.proposals@.len() implies (
            #[trigger] self.proposals@[i]).id == i && self.proposals@[i].wf()
                && proposal_tallies_match(self.proposals@[i], self.vote_records@) by {
                if i != proposal_id as int {
                    assert(self.proposals@[i] == old(self).proposals@[i]);
                }
            }
            assert forall|k: int|
                0 <= k < self.vote_records@.len() implies self.record_ok(
                #[trigger] self.vote_records@[k],
            ) by {
                assert(old(self).record_ok(self.vote_records@[k]));
            }
        }
        Ok(())
    }

    /// Veto a proposal. Any registered, currently active guardian may
    /// halt a proposal that is `Active` or `Succeeded`, regardless of its
    /// tallies, which are left untouched; any other phase rejects the
    /// veto. The guardian's veto count is incremented; the host keeps it
    /// within the machine word.
    pub fn veto_proposal(
        &mut self,
        proposal_id: u64,
        guardian: u64,
        reason: String,
        now_ts: i64,
    ) -> (r: Result<(), GovernanceError>)
        requires
            old(self).wf(),
            forall|i: int|
                0 <= i < old(self).guardians@.len() && (#[trigger] old(self).guardians@[i]).guardian
                    == guardian ==> old(self).guardians@[i].veto_count < u64::MAX,
        ensures
            final(self).wf(),
            r == old(self).veto_check(proposal_id, guardian),
            r is Ok ==> ({
                let p = old(self).proposals@[proposal_id as int];
                &&& final(self).proposals@ == old(self).proposals@.update(
                    proposal_id as int,
                    (Proposal { status: ProposalStatus::Vetoed, ..p }),
                )
                &&& exists|gi: int|
                    0 <= gi < old(self).guardians@.len() && (#[trigger] old(
                        self,
                    ).guardians@[gi]).guardian == guardian && old(self).guardians@[gi].is_active
                        && final(self).guardians@ == old(self).guardians@.update(
                        gi,
                        (GuardianAccount {
                            veto_count: (old(self).guardians@[gi].veto_count + 1) as u64,
                            ..old(self).guardians@[gi]
                        }),
                    )
                &&& final(self).events@ == old(self).events@.push(
                    GovernanceEvent::ProposalVetoed(ProposalVetoed {
                        proposal_id,
                        guardian,
                        reason,
                        timestamp: now_ts,
                    }),
                )
                &&& final(self).governance == old(self).governance
                &&& final(self).voters@ == old(self).voters@
                &&& final(self).vote_records@ == old(self).vote_records@
                &&& final(self).thought_logs@ == old(self).thought_logs@
            }),
            r is Err ==> *final(self) == *old(self),
    {
        if proposal_id >= self.proposals.len() as u64 {
            return Err(GovernanceError::InvalidProposal);
        }
        let idx = proposal_id as usize;
        let gi = match find_guardian_index(&self.guardians, guardian) {
            None => {
                return Err(GovernanceError::NotGuardian);
            },
            Some(gi) => gi,
        };
        if !self.guardians[gi].is_active {
            proof {
                let gs = self.guardians@;
                if guardian_active(gs, guardian) {
                    let j = choose|j: int|
                        0 <= j < gs.len() && gs[j].guardian == guardian && gs[j].is_active;
                    if j < gi {
                        assert(gs[j].guardian != gs[gi as int].guardian);
                    } else if gi < j {
                        assert(gs[gi as int].guardian != gs[j].guardian);
                    }
                }
            }
            return Err(GovernanceError::NotGuardian);
        }
        let st = self.proposals[idx].status;
        if !(st == ProposalStatus::Active || st == ProposalStatus::Succeeded) {
            return Err(GovernanceError::CannotVeto);
        }
        let p = &mut self.proposals[idx];
        p.status = ProposalStatus::Vetoed;
        let g = &mut self.guardians[gi];
        g.veto_count = g.veto_count + 1;
        self.events.push(GovernanceEvent::ProposalVetoed(ProposalVetoed {
            proposal_id,
            guardian,
            reason,
            timestamp: now_ts,
        }));
        proof {
            let gs = self.guardians@;
            assert forall|i: int, j: int| 0 <= i < j < gs.len() implies #[trigger] gs[i].guardian
                != #[trigger] gs[j].guardian by {
                assert(gs[i].guardian == old(self).guardians@[i].guardian);
                assert(gs[j].guardian == old(self).guardians@[j].guardian);
            }
            assert forall|i: int| 0 <= i < self.proposals@.len() implies (
            #[trigger] self.proposals@[i]).id == i && self.proposals@[i].wf()
                && proposal_tallies_match(self.proposals@[i], self.vote_records@) by {
                if i != proposal_id as int {
                    assert(self.proposals@[i] == old(self).proposals@[i]);
                }
            }
            assert forall|k: int|
                0 <= k < self.vote_records@.len() implies self.record_ok(
                #[trigger] self.vote_records@[k],
            ) by {
                assert(old(self).record_ok(self.vote_records@[k]));
            }
        }
        Ok(())
    }

    /// Append one thought log record linking `logger`'s action to its
    /// off-system reasoning, inputs and outputs. Always succeeds when the
    /// text bounds hold; independent of the proposal lifecycle, so logging
    /// can never block governance progress. Returns the record's id.
    pub fn log_thought(
        &mut self,
        logger: u64,
        agent_id: String,
        action: String,
        epi_score: u64,
        reasoning_hash: [u8; 32],
        inputs_hash: [u8; 32],
        outputs_hash: [u8; 32],
        now_ts: i64,
    ) -> (r: Result<u64, GovernanceError>)
        requires
            old(self).wf(),
        ensures
            final(self).wf(),
            r == old(self).log_check(agent_id@, action@),
            r matches Ok(id) ==> ({
                let l = final(self).thought_logs@.last();
                &&& id == old(self).thought_logs@.len()
                &&& final(self).thought_logs@.len() == old(self).thought_logs@.len() + 1
                &&& final(self).thought_logs@.drop_last() == old(self).thought_logs@
                &&& l.agent_id@ == agent_id@
                &&& l.action == action
                &&& l.epi_score == epi_score
                &&& l.reasoning_hash == reasoning_hash
                &&& l.inputs_hash == inputs_hash
                &&& l.outputs_hash == outputs_hash
                &&& l.timestamp == now_ts
                &&& l.logger == logger
                &&& final(self).events@ == old(self).events@.push(
                    GovernanceEvent::ThoughtLogged(ThoughtLogged {
                        proposal_id: 0,
                        agent_id,
                        thought_hash: reasoning_hash,
                        timestamp: now_ts,
                    }),
                )
                &&& final(self).governance == old(self).governance
                &&& final(self).proposals@ == old(self).proposals@
                &&& final(self).voters@ == old(self).voters@
                &&& final(self).guardians@ == old(self).guardians@
                &&& final(self).vote_records@ == old(self).vote_records@
            }),
            r is Err ==> *final(self) == *old(self),
    {
        if agent_id.as_str().unicode_len() > MAX_AGENT_ID_LEN {
            return Err(GovernanceError::AgentIdTooLong);
        }
        if action.as_str().unicode_len() > MAX_ACTION_LEN {
            return Err(GovernanceError::ActionTooLong);
        }
        let id = self.thought_logs.len() as u64;
        self.thought_logs.push(ThoughtLog {
            agent_id: agent_id.clone(),
            action,
            epi_score,
            reasoning_hash,
            inputs_hash,
            outputs_hash,
            timestamp: now_ts,
            logger,
        });
        self.events.push(GovernanceEvent::ThoughtLogged(ThoughtLogged {
            proposal_id: 0,
            agent_id,
            thought_hash: reasoning_hash,
            timestamp: now_ts,
        }));
        proof {
            assert(self.thought_logs@.drop_last() =~= old(self).thought_logs@);
            assert forall|k: int|
                0 <= k < self.thought_logs@.len() implies (#[trigger] self.thought_logs@[k]).wf() by {
                if k < old(self).thought_logs@.len() {
                    assert(self.thought_logs@[k] == old(self).thought_logs@[k]);
                }
            }
        }
        Ok(id)
    }

    /// Read a proposal's tallies: the power cast for, against and as
    /// abstention. Always equals the live ledger sums of the vote records
    /// for that proposal.
    pub fn tally(&self, proposal_id: u64) -> (r: Option<(u64, u64, u64)>)
        requires
            self.wf(),
        ensures
            r is Some <==> proposal_id < self.proposals@.len(),
            r matches Some(t) ==> ({
                let p = self.proposals@[proposal_id as int];
                &&& t.0 == p.votes_for
                &&& t.1 == p.votes_against
                &&& t.2 == p.votes_abstain
                &&& t.0 == tally_power(self.vote_records@, proposal_id, SUPPORT_FOR)
                &&& t.1 == tally_power(self.vote_records@, proposal_id, SUPPORT_AGAINST)
                &&& t.2 == tally_power(self.vote_records@, proposal_id, SUPPORT_ABSTAIN)
            }),
    {
        if proposal_id < self.proposals.len() as u64 {
            let idx = proposal_id as usize;
            let p = &self.proposals[idx];
            Some((p.votes_for, p.votes_against, p.votes_abstain))
        } else {
            None
        }
    }

    /// Replace the EPI threshold. Authority only. Proposals already
    /// admitted keep their place; only future submissions are gated by the
    /// new threshold.
    pub fn update_epi_threshold(&mut self, authority: u64, new_threshold: u64, now_ts: i64) -> (r:
        Result<(), GovernanceError>)
        requires
            old(self).wf(),
        ensures
            final(self).wf(),
            r == old(self).update_threshold_check(authority),
            r is Ok ==> final(self).governance == (Governance {
                epi_threshold: new_threshold,
                ..old(self).governance
            }),
            r is Ok ==> final(self).events@ == old(self).events@.push(
                GovernanceEvent::EPIThresholdUpdated(EPIThresholdUpdated {
                    old_threshold: old(self).governance.epi_threshold,
                    new_threshold,
                    timestamp: now_ts,
                }),
            ),
            r is Ok ==> final(self).proposals@ == old(self).proposals@ && final(self).voters@
                == old(self).voters@ && final(self).guardians@ == old(self).guardians@
                && final(self).vote_records@ == old(self).vote_records@
                && final(self).thought_logs@ == old(self).thought_logs@,
            r is Err ==> *final(self) == *old(self),
    {
        if authority != self.governance.authority {
            return Err(GovernanceError::Unauthorized);
        }
        let old_threshold = self.governance.epi_threshold;
        self.governance.epi_threshold = new_threshold;
        self.events.push(GovernanceEvent::EPIThresholdUpdated(EPIThresholdUpdated {
            old_threshold,
            new_threshold,
            timestamp: now_ts,
        }));
        Ok(())
    }
}

/// The EPI gate: a score is admitted exactly when it reaches the
/// threshold.
pub fn epi_gate(epi_score: u64, threshold: u64) -> (admitted: bool)
    ensures
        admitted == (epi_score >= threshold),
{
    epi_score >= threshold
}

/// Index of the voter account of `id`, if one exists.
fn find_voter_index(voters: &Vec<VoterAccount>, id: u64) -> (r: Option<usize>)
    ensures
        match r {
            Some(i) => i < voters@.len() && voters@[i as int].voter == id,
            None => !has_voter(voters@, id),
        },
{
    let mut i: usize = 0;
    while i < voters.len()
        invariant
            i <= voters@.len(),
            forall|k: int| 0 <= k < i ==> (#[trigger] voters@[k]).voter != id,
        decreases voters@.len() - i,
    {
        if voters[i].voter == id {
            return Some(i);
        }
        i = i + 1;
    }
    None
}

/// Index of the guardian account of `id`, if one exists.
fn find_guardian_index(guardians: &Vec<GuardianAccount>, id: u64) -> (r: Option<usize>)
    ensures
        match r {
            Some(i) => i < guardians@.len() && guardians@[i as int].guardian == id,
            None => !has_guardian(guardians@, id),
        },
{
    let mut i: usize = 0;
    while i < guardians.len()
        invariant
            i <= guardians@.len(),
            forall|k: int| 0 <= k < i ==> (#[trigger] guardians@[k]).guardian != id,
        decreases guardians@.len() - i,
    {
        if guardians[i].guardian == id {
            return Some(i);
        }
        i = i + 1;
    }
    None
}

/// Whether a vote record exists for the pair of proposal and voter.
fn record_exists(records: &Vec<VoteRecord>, proposal_id: u64, voter: u64) -> (r: bool)
    ensures
        r == has_vote_record(records@, proposal_id, voter),
{
    let mut i: usize = 0;
    while i < records.len()
        invariant
            i <= records@.len(),
            forall|k: int|
                0 <= k < i ==> !((#[trigger] records@[k]).proposal_id == proposal_id
                    && records@[k].voter == voter),
        decreases records@.len() - i,
    {
        if records[i].proposal_id == proposal_id && records[i].voter == voter {
            return true;
        }
        i = i + 1;
    }
    false
}

} // verus!
