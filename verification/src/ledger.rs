//! Specification view of the directory and the voting ledger.
//!
//! The voter directory, the guardian directory and the vote ledger are
//! sequences of records; these functions say what it means for an identity
//! to be registered, what power it holds, and what the ledger sums to.
//! The lemmas culminate in `lemma_record_total_bounded`: because each
//! proposal admits at most one record per voter and every record snapshots
//! a registered power, the power cast on a proposal never exceeds the
//! total registered voting power.

use vstd::prelude::*;

use crate::state::{GuardianAccount, VoteRecord, VoterAccount};

verus! {

/// The identity `id` is registered with voting power `power`.
pub open spec fn registered(voters: Seq<VoterAccount>, id: u64, power: u64) -> bool {
    exists|i: int|
        0 <= i < voters.len() && voters[i].voter == id && voters[i].voting_power == power
}

/// The identity `id` has a voter account.
pub open spec fn has_voter(voters: Seq<VoterAccount>, id: u64) -> bool {
    exists|i: int| 0 <= i < voters.len() && voters[i].voter == id
}

/// The voting power of `id`: its registered power, or zero when `id` has
/// no voter account.
pub open spec fn power_of(voters: Seq<VoterAccount>, id: u64) -> u64 {
    if has_voter(voters, id) {
        voters[choose|i: int| 0 <= i < voters.len() && voters[i].voter == id].voting_power
    } else {
        0
    }
}

/// No two voter accounts share an identity.
pub open spec fn distinct_voters(voters: Seq<VoterAccount>) -> bool {
    forall|i: int, j: int|
        0 <= i < j < voters.len() ==> #[trigger] voters[i].voter != #[trigger] voters[j].voter
}

/// The identity `id` has a guardian account.
pub open spec fn has_guardian(guardians: Seq<GuardianAccount>, id: u64) -> bool {
    exists|i: int| 0 <= i < guardians.len() && guardians[i].guardian == id
}

/// The identity `id` has a guardian account that is currently active.
pub open spec fn guardian_active(guardians: Seq<GuardianAccount>, id: u64) -> bool {
    exists|i: int|
        0 <= i < guardians.len() && guardians[i].guardian == id && guardians[i].is_active
}

/// No two guardian accounts share an identity.
pub open spec fn distinct_guardians(guardians: Seq<GuardianAccount>) -> bool {
    forall|i: int, j: int|
        0 <= i < j < guardians.len()
            ==> #[trigger] guardians[i].guardian != #[trigger] guardians[j].guardian
}

/// A vote record exists for the pair of proposal `pid` and voter `voter`.
pub open spec fn has_vote_record(records: Seq<VoteRecord>, pid: u64, voter: u64) -> bool {
    exists|i: int|
        0 <= i < records.len() && records[i].proposal_id == pid && records[i].voter == voter
}

/// No two vote records share a proposal and voter pair.
pub open spec fn distinct_records(records: Seq<VoteRecord>) -> bool {
    forall|i: int, j: int|
        0 <= i < j < records.len()
            ==> !((#[trigger] records[i]).proposal_id == (#[trigger] records[j]).proposal_id
                && records[i].voter == records[j].voter)
}

/// Sum of the voting power of all registered voters.
pub open spec fn sum_powers(voters: Seq<VoterAccount>) -> int
    decreases voters.len(),
{
    if voters.len() == 0 {
        0
    } else {
        sum_powers(voters.drop_last()) + voters.last().voting_power
    }
}

/// Sum of the power of the records cast on proposal `pid` with the given
/// support value.
pub open spec fn tally_power(records: Seq<VoteRecord>, pid: u64, support: u8) -> int
    decreases records.len(),
{
    if records.len() == 0 {
        0
    } else {
        tally_power(records.drop_last(), pid, support) + if records.last().proposal_id == pid
            && records.last().support == support {
            records.last().voting_power as int
        } else {
            0
        }
    }
}

/// Sum of the power of all records cast on proposal `pid`.
pub open spec fn record_total(records: Seq<VoteRecord>, pid: u64) -> int
    decreases records.len(),
{
    if records.len() == 0 {
        0
    } else {
        record_total(records.drop_last(), pid) + if records.last().proposal_id == pid {
            records.last().voting_power as int
        } else {
            0
        }
    }
}

/// The registered power of all voters sums to at least zero.
pub proof fn lemma_sum_powers_nonneg(voters: Seq<VoterAccount>)
    ensures
        sum_powers(voters) >= 0,
    decreases voters.len(),
{
    if voters.len() > 0 {
        lemma_sum_powers_nonneg(voters.drop_last());
    }
}

/// A tally over the ledger sums to at least zero.
pub proof fn lemma_tally_power_nonneg(records: Seq<VoteRecord>, pid: u64, support: u8)
    ensures
        tally_power(records, pid, support) >= 0,
    decreases records.len(),
{
    if records.len() > 0 {
        lemma_tally_power_nonneg(records.drop_last(), pid, support);
    }
}

/// Appending a voter adds exactly its power to the directory sum.
pub proof fn lemma_sum_powers_push(voters: Seq<VoterAccount>, v: VoterAccount)
    ensures
        sum_powers(voters.push(v)) == sum_powers(voters) + v.voting_power,
{
    assert(voters.push(v).drop_last() =~= voters);
}

/// Appending a record adds its power to the tally it matches and leaves
/// every other tally unchanged.
pub proof fn lemma_tally_power_push(records: Seq<VoteRecord>, r: VoteRecord, pid: u64, support: u8)
    ensures
        tally_power(records.push(r), pid, support) == tally_power(records, pid, support) + if r.proposal_id
            == pid && r.support == support {
            r.voting_power as int
        } else {
            0
        },
{
    assert(records.push(r).drop_last() =~= records);
}

/// Appending a record adds its power to the total of the proposal it
/// belongs to and leaves every other proposal's total unchanged.
pub proof fn lemma_record_total_push(records: Seq<VoteRecord>, r: VoteRecord, pid: u64)
    ensures
        record_total(records.push(r), pid) == record_total(records, pid) + if r.proposal_id == pid {
            r.voting_power as int
        } else {
            0
        },
{
    assert(records.push(r).drop_last() =~= records);
}

/// A proposal no record was cast on has zero tallies and a zero total.
pub proof fn lemma_tally_absent(records: Seq<VoteRecord>, pid: u64)
    requires
        forall|k: int| 0 <= k < records.len() ==> (#[trigger] records[k]).proposal_id != pid,
    ensures
        record_total(records, pid) == 0,
        forall|support: u8| #[trigger] tally_power(records, pid, support) == 0,
    decreases records.len(),
{
    if records.len() > 0 {
        lemma_tally_absent(records.drop_last(), pid);
        assert forall|support: u8| #[trigger] tally_power(records, pid, support) == 0 by {
            assert(tally_power(records.drop_last(), pid, support) == 0);
        }
    }
}

/// A proposal's total is the sum of its three tallies, as long as every
/// record carries one of the three support values.
pub proof fn lemma_tally_split(records: Seq<VoteRecord>, pid: u64)
    requires
        forall|k: int| 0 <= k < records.len() ==> (#[trigger] records[k]).support <= 2,
    ensures
        record_total(records, pid) == tally_power(records, pid, 0) + tally_power(records, pid, 1)
            + tally_power(records, pid, 2),
    decreases records.len(),
{
    if records.len() > 0 {
        lemma_tally_split(records.drop_last(), pid);
    }
}

/// Removing a voter account subtracts exactly its power from the
/// directory sum.
pub proof fn lemma_sum_powers_remove(voters: Seq<VoterAccount>, i: int)
    requires
        0 <= i < voters.len(),
    ensures
        sum_powers(voters.remove(i)) == sum_powers(voters) - voters[i].voting_power,
    decreases voters.len(),
{
    if i == voters.len() - 1 {
        assert(voters.remove(i) =~= voters.drop_last());
    } else {
        assert(voters.remove(i).drop_last() =~= voters.drop_last().remove(i));
        assert(voters.remove(i).last() == voters.last());
        lemma_sum_powers_remove(voters.drop_last(), i);
    }
}

/// Removing one voter account keeps every other identity registered with
/// its power.
pub proof fn lemma_registered_remove(voters: Seq<VoterAccount>, i: int, id: u64, power: u64)
    requires
        0 <= i < voters.len(),
        registered(voters, id, power),
        voters[i].voter != id,
    ensures
        registered(voters.remove(i), id, power),
{
    let j = choose|j: int|
        0 <= j < voters.len() && voters[j].voter == id && voters[j].voting_power == power;
    if j < i {
        assert(voters.remove(i)[j] == voters[j]);
    } else {
        assert(voters.remove(i)[j - 1] == voters[j]);
    }
}

/// Removing one voter account keeps the remaining identities distinct.
pub proof fn lemma_distinct_voters_remove(voters: Seq<VoterAccount>, i: int)
    requires
        0 <= i < voters.len(),
        distinct_voters(voters),
    ensures
        distinct_voters(voters.remove(i)),
{
    let rest = voters.remove(i);
    assert forall|a: int, b: int| 0 <= a < b < rest.len() implies #[trigger] rest[a].voter
        != #[trigger] rest[b].voter by {
        let a0 = if a < i { a } else { a + 1 };
        let b0 = if b < i { b } else { b + 1 };
        assert(rest[a] == voters[a0]);
        assert(rest[b] == voters[b0]);
    }
}

/// The power cast on one proposal never exceeds the registered total:
/// each voter leaves at most one record per proposal, and each record
/// snapshots the power of a distinct registered voter.
pub proof fn lemma_record_total_bounded(
    records: Seq<VoteRecord>,
    voters: Seq<VoterAccount>,
    pid: u64,
)
    requires
        distinct_voters(voters),
        forall|i: int, j: int|
            0 <= i < j < records.len() && (#[trigger] records[i]).proposal_id == pid
                && (#[trigger] records[j]).proposal_id == pid ==> records[i].voter
                != records[j].voter,
        forall|k: int|
            0 <= k < records.len() && (#[trigger] records[k]).proposal_id == pid ==> registered(
                voters,
                records[k].voter,
                records[k].voting_power,
            ),
    ensures
        record_total(records, pid) <= sum_powers(voters),
    decreases records.len(),
{
    if records.len() == 0 {
        lemma_sum_powers_nonneg(voters);
    } else {
        let r = records.last();
        let rest = records.drop_last();
        if r.proposal_id != pid {
            lemma_record_total_bounded(rest, voters, pid);
        } else {
            assert(registered(voters, r.voter, r.voting_power));
            let i = choose|i: int|
                0 <= i < voters.len() && voters[i].voter == r.voter && voters[i].voting_power
                    == r.voting_power;
            let smaller = voters.remove(i);
            lemma_distinct_voters_remove(voters, i);
            lemma_sum_powers_remove(voters, i);
            assert forall|k: int|
                0 <= k < rest.len() && (#[trigger] rest[k]).proposal_id == pid implies registered(
                smaller,
                rest[k].voter,
                rest[k].voting_power,
            ) by {
                assert(records[k] == rest[k]);
                assert(records[records.len() - 1] == r);
                assert(rest[k].voter != r.voter);
                lemma_registered_remove(voters, i, rest[k].voter, rest[k].voting_power);
            }
            lemma_record_total_bounded(rest, smaller, pid);
        }
    }
}

} // verus!
