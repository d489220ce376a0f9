use vstd::prelude::*;

use crate::id::commitment_id_of;
use crate::rules::CommitmentRules;
use crate::violation::loss_in_range;

verus! {

/// Where a commitment stands in its lifecycle. Only forward moves happen.
#[derive(Clone, Copy, Debug, PartialEq, Eq, Structural)]
pub enum CommitmentStatus {
    Active,
    Settled,
    Violated,
    EarlyExit,
}

/// A locked position and the rules it is held under.
#[derive(Clone, Debug)]
pub struct Commitment {
    pub commitment_id: String,
    pub owner: String,
    /// The certificate minted for this commitment; 0 until it is minted.
    pub nft_token_id: u32,
    pub rules: CommitmentRules,
    /// The principal locked at creation.
    pub amount: i128,
    pub asset_address: String,
    pub created_at: u64,
    pub expires_at: u64,
    pub current_value: i128,
    pub status: CommitmentStatus,
}

pub const SECONDS_PER_DAY: u64 = 86400;

/// The facts every stored commitment keeps, `index` being its place in
/// creation order.
pub open spec fn commitment_wf(c: Commitment, index: int) -> bool {
    &&& c.commitment_id@ == commitment_id_of(index as nat)
    &&& c.amount > 0
    &&& c.current_value >= 0
    &&& loss_in_range(c.amount as int, c.current_value as int)
    &&& c.expires_at == c.created_at + c.rules.duration_days * SECONDS_PER_DAY
}

/// What a commitment contributes to the value locked: its current value while
/// it is active, nothing afterwards.
pub open spec fn locked_value(c: Commitment) -> int {
    if c.status == CommitmentStatus::Active {
        c.current_value as int
    } else {
        0
    }
}

/// What a commitment contributes to the value locked in `asset`.
pub open spec fn locked_value_in(c: Commitment, asset: Seq<char>) -> int {
    if c.asset_address@ == asset {
        locked_value(c)
    } else {
        0
    }
}

/// The sum of `current_value` over the active commitments of `s`.
pub open spec fn active_value(s: Seq<Commitment>) -> int
    decreases s.len(),
{
    if s.len() == 0 {
        0
    } else {
        active_value(s.drop_last()) + locked_value(s.last())
    }
}

/// The sum of `current_value` over the active commitments of `s` in `asset`.
pub open spec fn asset_value(s: Seq<Commitment>, asset: Seq<char>) -> int
    decreases s.len(),
{
    if s.len() == 0 {
        0
    } else {
        asset_value(s.drop_last(), asset) + locked_value_in(s.last(), asset)
    }
}

/// The ids of the commitments of `owner`, in creation order.
pub open spec fn ids_of_owner(s: Seq<Commitment>, owner: Seq<char>) -> Seq<Seq<char>>
    decreases s.len(),
{
    if s.len() == 0 {
        Seq::empty()
    } else {
        let rest = ids_of_owner(s.drop_last(), owner);
        if s.last().owner@ == owner {
            rest.push(s.last().commitment_id@)
        } else {
            rest
        }
    }
}

/// Every current value in `s` is non-negative.
pub open spec fn values_nonneg(s: Seq<Commitment>) -> bool {
    forall|i: int| 0 <= i < s.len() ==> s[i].current_value >= 0
}

pub proof fn lemma_push(s: Seq<Commitment>, c: Commitment, asset: Seq<char>, owner: Seq<char>)
    ensures
        active_value(s.push(c)) == active_value(s) + locked_value(c),
        asset_value(s.push(c), asset) == asset_value(s, asset) + locked_value_in(c, asset),
        ids_of_owner(s.push(c), owner) == if c.owner@ == owner {
            ids_of_owner(s, owner).push(c.commitment_id@)
        } else {
            ids_of_owner(s, owner)
        },
{
    assert(s.push(c).drop_last() =~= s);
}

pub proof fn lemma_update(s: Seq<Commitment>, i: int, c: Commitment, asset: Seq<char>)
    requires
        0 <= i < s.len(),
    ensures
        active_value(s.update(i, c)) == active_value(s) - locked_value(s[i]) + locked_value(c),
        asset_value(s.update(i, c), asset) == asset_value(s, asset) - locked_value_in(s[i], asset)
            + locked_value_in(c, asset),
    decreases s.len(),
{
    let t = s.update(i, c);
    if i == s.len() - 1 {
        assert(t.drop_last() =~= s.drop_last());
    } else {
        assert(t.drop_last() =~= s.drop_last().update(i, c));
        lemma_update(s.drop_last(), i, c, asset);
    }
}

/// With non-negative values, the value locked in one asset lies between zero
/// and the value locked overall, and a prefix locks no more than the whole.
pub proof fn lemma_bounds(s: Seq<Commitment>, asset: Seq<char>, k: int)
    requires
        values_nonneg(s),
        0 <= k <= s.len(),
    ensures
        0 <= asset_value(s, asset) <= active_value(s),
        0 <= active_value(s.take(k)) <= active_value(s),
        0 <= asset_value(s.take(k), asset) <= active_value(s.take(k)),
    decreases s.len(),
{
    if s.len() > 0 {
        let d = s.drop_last();
        assert(values_nonneg(d)) by {
            assert forall|i: int| 0 <= i < d.len() implies d[i].current_value >= 0 by {
                assert(d[i] == s[i]);
            }
        }
        assert(s.last() == s[s.len() - 1]);
        if k == s.len() {
            assert(s.take(k) =~= s);
            lemma_bounds(d, asset, 0);
        } else {
            assert(s.take(k) =~= d.take(k));
            lemma_bounds(d, asset, k);
        }
    } else {
        assert(s.take(k) =~= s);
    }
}

impl Commitment {
    /// A field-by-field copy that callers can reason about.
    pub fn duplicate(&self) -> (r: Commitment)
        ensures
            r == *self,
    {
        Commitment {
            commitment_id: self.commitment_id.clone(),
            owner: self.owner.clone(),
            nft_token_id: self.nft_token_id,
            rules: self.rules.duplicate(),
            amount: self.amount,
            asset_address: self.asset_address.clone(),
            created_at: self.created_at,
            expires_at: self.expires_at,
            current_value: self.current_value,
            status: self.status,
        }
    }
}

} // verus!
