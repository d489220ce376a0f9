use vstd::prelude::*;

use crate::commitment::{active_value, lemma_push, CommitmentStatus};
use crate::error::Error;
use crate::ledger::CommitmentCoreContract;
use crate::rules::CommitmentRules;

verus! {

/// In a well-formed ledger the counters agree with the records: the commitment
/// counter is the number of commitments ever created, and the value locked is
/// the sum of `current_value` over the active commitments.
pub proof fn law_counters_agree_with_records(l: &CommitmentCoreContract)
    requires
        l.wf(),
    ensures
        l.total_commitments == l.commitments@.len(),
        l.total_value_locked == active_value(l.commitments@),
{
}

/// Starting from an empty ledger, after `n` creations whose interactions
/// completed, the counter reads `n`, there are `n` records, and the value locked
/// is the sum of `current_value` over the active ones.
pub proof fn law_counters_after_creations(states: Seq<CommitmentCoreContract>)
    requires
        states.len() >= 1,
        states[0].commitments@.len() == 0,
        forall|k: int| 0 <= k < states.len() ==> #[trigger] states[k].wf(),
        forall|k: int| 0 <= k < states.len() - 1 ==> #[trigger] states[k].creation_round(&states[k + 1]),
    ensures
        states.last().total_commitments == states.len() - 1,
        states.last().commitments@.len() == states.len() - 1,
        states.last().total_value_locked == active_value(states.last().commitments@),
    decreases states.len(),
{
    assert(states[states.len() - 1].wf());
    if states.len() > 1 {
        let prev = states.drop_last();
        assert forall|k: int| 0 <= k < prev.len() implies #[trigger] prev[k].wf() by {
            assert(states[k].wf());
        }
        assert forall|k: int| 0 <= k < prev.len() - 1 implies #[trigger] prev[k].creation_round(
            &prev[k + 1],
        ) by {
            assert(states[k].creation_round(&states[k + 1]));
        }
        law_counters_after_creations(prev);
        let k = states.len() - 2;
        let pre = states[k];
        let post = states[k + 1];
        assert(pre.creation_round(&post));
        let (mid, owner, amount, asset, rules, now, token) = choose|
            mid: CommitmentCoreContract,
            owner: String,
            amount: i128,
            asset: String,
            rules: CommitmentRules,
            now: u64,
            token: u32,
        | #[trigger] pre.creation_applied(&mid, owner, amount, asset, rules, now)
            && #[trigger] mid.creation_completed(&post, token);
        assert(prev.last() == pre);
    }
}

/// A successful creation adds exactly one record, advances the counter by one
/// and adds the locked amount to the value locked, which still sums the active
/// records.
pub proof fn law_creation_advances_counters(
    pre: &CommitmentCoreContract,
    post: &CommitmentCoreContract,
    owner: String,
    amount: i128,
    asset: String,
    rules: CommitmentRules,
    now: u64,
)
    requires
        pre.wf(),
        pre.creation_applied(post, owner, amount, asset, rules, now),
    ensures
        post.commitments@.len() == pre.commitments@.len() + 1,
        post.total_commitments == pre.total_commitments + 1,
        post.total_commitments == post.commitments@.len(),
        active_value(post.commitments@) == active_value(pre.commitments@) + amount,
        post.total_value_locked == active_value(post.commitments@),
{
    let n = pre.commitments@.len();
    let c = post.commitments@[n as int];
    assert(post.commitments@ =~= pre.commitments@.push(c));
    lemma_push(pre.commitments@, c, Seq::empty(), Seq::empty());
}

/// Settlement happens once: before expiry it fails `NotExpired`; while its
/// interactions are pending any further settlement fails `ReentrancyDetected`;
/// once they are done, settling the same id again at the same time or later
/// fails `AlreadySettled`.
pub proof fn law_settle_once(
    pre: &CommitmentCoreContract,
    mid: &CommitmentCoreContract,
    post: &CommitmentCoreContract,
    id: Seq<char>,
    now: u64,
    earlier: u64,
    later: u64,
)
    requires
        pre.wf(),
        pre.settle_error(id, now).is_none(),
        pre.settlement_applied(mid, id),
        mid.settlement_completed(post),
        earlier < pre.commitment_of(id).expires_at,
        later >= now,
    ensures
        pre.settle_error(id, earlier) == Some(Error::NotExpired),
        mid.settle_error(id, later) == Some(Error::ReentrancyDetected),
        post.settle_error(id, later) == Some(Error::AlreadySettled),
        post.commitment_of(id).status == CommitmentStatus::Settled,
        post.total_value_locked == pre.total_value_locked - pre.commitment_of(id).current_value,
{
    let i = pre.index_of(id);
    assert(mid.commitments@[i].commitment_id@ == id);
    assert(post.commitments@[i].commitment_id@ == id);
    assert(post.has_commitment(id));
    let k = post.index_of(id);
    assert(mid.commitments@[k] == post.commitments@[k]);
    if k != i {
        assert(pre.commitments@[k].commitment_id@ == id);
        assert(pre.commitments@[i].commitment_id@ == id);
        pre.lemma_ids_unique(i, k);
    }
}

/// While a creation or a settlement awaits its interactions, the guard is held
/// and every further creation or settlement fails `ReentrancyDetected`, which
/// leaves the ledger unchanged.
pub proof fn law_reentry_blocked(
    pre: &CommitmentCoreContract,
    mid: &CommitmentCoreContract,
    owner: String,
    amount: i128,
    asset: String,
    rules: CommitmentRules,
    now: u64,
    settled_id: Seq<char>,
    any_amount: i128,
    any_asset: Seq<char>,
    any_rules: CommitmentRules,
    any_id: Seq<char>,
    any_now: u64,
    rate_limited: bool,
)
    requires
        pre.creation_applied(mid, owner, amount, asset, rules, now) || pre.settlement_applied(
            mid,
            settled_id,
        ),
    ensures
        mid.guard@,
        mid.creation_error(any_amount, any_asset, any_rules, any_now, rate_limited) == Some(
            Error::ReentrancyDetected,
        ),
        mid.settle_error(any_id, any_now) == Some(Error::ReentrancyDetected),
{
}

} // verus!
