use vstd::prelude::*;

use crate::access::AccessControl;
use crate::commitment::{
    active_value,
    commitment_wf,
    lemma_bounds,
    lemma_push,
    lemma_update,
    values_nonneg,
    Commitment,
    CommitmentStatus,
    SECONDS_PER_DAY,
};
use crate::error::Error;
use crate::guard::ReentrancyGuard;
use crate::id::{commitment_id_of, generate_commitment_id, lemma_commitment_id_injective};
use crate::rules::{rules_error, validate_rules, CommitmentRules};
use crate::violation::violated_of;

verus! {

/// The mutating operation whose external interactions are still pending.
#[derive(Clone, Copy, Debug, PartialEq, Eq, Structural)]
pub enum InFlight {
    /// A creation: the deposit and the certificate mint are due.
    Creation(usize),
    /// A settlement: the payout and the certificate update are due.
    Settlement(usize),
}

/// The interactions a successful `create_commitment` asks the host to perform:
/// move `amount` of `asset_address` from `owner` into the vault, then mint a
/// certificate on `nft_contract`.
#[derive(Clone, Debug)]
pub struct CreationOrder {
    pub commitment_id: String,
    pub owner: String,
    pub amount: i128,
    pub asset_address: String,
    pub nft_contract: String,
    pub rules: CommitmentRules,
}

/// The interactions a successful `settle` asks the host to perform: pay
/// `settlement_amount` of `asset_address` from the vault back to `owner`, then
/// mark certificate `nft_token_id` on `nft_contract` inactive.
#[derive(Clone, Debug)]
pub struct SettlementOrder {
    pub commitment_id: String,
    pub owner: String,
    pub settlement_amount: i128,
    pub asset_address: String,
    pub nft_contract: String,
    pub nft_token_id: u32,
}

/// Emitted once a commitment is fully created.
#[derive(Clone, Debug)]
pub struct CommitmentCreatedEvent {
    pub commitment_id: String,
    pub owner: String,
    pub amount: i128,
    pub asset_address: String,
    pub nft_token_id: u32,
    pub rules: CommitmentRules,
    pub timestamp: u64,
}

/// Emitted once a commitment is fully settled.
#[derive(Clone, Debug)]
pub struct CommitmentSettledEvent {
    pub commitment_id: String,
    pub settlement_amount: i128,
    pub timestamp: u64,
}

/// The commitment ledger: records, counters, the reentrancy guard and the
/// configuration the lifecycle operations consult.
///
/// A mutating operation that needs external interactions runs in two steps.
/// `create_commitment` and `settle` perform the checks and the effects, keep the
/// guard held and return the interactions to perform; `complete_creation` and
/// `complete_settlement` record their outcome and release the guard. If an
/// interaction fails, the host discards the whole transaction, this state
/// included.
#[derive(Debug)]
pub struct CommitmentCoreContract {
    pub access: AccessControl,
    pub nft_contract: Option<String>,
    pub commitments: Vec<Commitment>,
    pub total_commitments: u64,
    pub total_value_locked: i128,
    pub guard: ReentrancyGuard,
    pub in_flight: Option<InFlight>,
    pub emergency: bool,
    /// The asset whitelist; empty when none is configured.
    pub supported_assets: Vec<String>,
}

impl CommitmentCoreContract {
    /// The ledger's invariant.
    pub open spec fn wf(&self) -> bool {
        &&& self.access.wf()
        &&& self.total_commitments == self.commitments@.len()
        &&& self.total_value_locked == active_value(self.commitments@)
        &&& (self.guard@ <==> self.in_flight.is_some())
        &&& forall|i: int|
            0 <= i < self.commitments@.len() ==> #[trigger] commitment_wf(
                self.commitments@[i],
                i,
            )
        &&& match self.in_flight {
            Some(InFlight::Creation(i)) => i < self.commitments@.len(),
            Some(InFlight::Settlement(i)) => i < self.commitments@.len(),
            None => true,
        }
    }

    /// Whether a commitment is stored under `id`.
    pub open spec fn has_commitment(&self, id: Seq<char>) -> bool {
        exists|i: int|
            0 <= i < self.commitments@.len() && #[trigger] self.commitments@[i].commitment_id@
                == id
    }

    /// The position of the commitment stored under `id`.
    pub open spec fn index_of(&self, id: Seq<char>) -> int {
        choose|i: int|
            0 <= i < self.commitments@.len() && #[trigger] self.commitments@[i].commitment_id@
                == id
    }

    /// The commitment stored under `id`.
    pub open spec fn commitment_of(&self, id: Seq<char>) -> Commitment {
        self.commitments@[self.index_of(id)]
    }

    pub open spec fn asset_supported(&self, asset: Seq<char>) -> bool {
        self.supported_assets@.len() == 0 || exists|i: int|
            0 <= i < self.supported_assets@.len() && #[trigger] self.supported_assets@[i]@
                == asset
    }

    /// The first check of `create_commitment` that fails, if any.
    pub open spec fn creation_error(
        &self,
        amount: i128,
        asset: Seq<char>,
        rules: CommitmentRules,
        now: u64,
        rate_limited: bool,
    ) -> Option<Error> {
        if self.guard@ {
            Some(Error::ReentrancyDetected)
        } else if self.emergency {
            Some(Error::EmergencyMode)
        } else if rate_limited {
            Some(Error::RateLimited)
        } else if amount <= 0 {
            Some(Error::InvalidAmount)
        } else if rules_error(rules).is_some() {
            rules_error(rules)
        } else if !self.asset_supported(asset) {
            Some(Error::AssetNotSupported)
        } else if self.nft_contract.is_none() {
            Some(Error::NotInitialized)
        } else if now + rules.duration_days * SECONDS_PER_DAY > u64::MAX {
            Some(Error::ArithmeticOverflow)
        } else if self.total_value_locked + amount > i128::MAX {
            Some(Error::ArithmeticOverflow)
        } else if self.total_commitments == u64::MAX {
            Some(Error::ArithmeticOverflow)
        } else {
            None
        }
    }

    /// `post` is `self` with one new active commitment appended, its counters
    /// advanced, and the guard held for the creation's interactions.
    pub open spec fn creation_applied(
        &self,
        post: &Self,
        owner: String,
        amount: i128,
        asset: String,
        rules: CommitmentRules,
        now: u64,
    ) -> bool {
        let n = self.commitments@.len();
        let c = post.commitments@[n as int];
        &&& post.commitments@.len() == n + 1
        &&& post.commitments@.take(n as int) == self.commitments@
        &&& c.commitment_id@ == commitment_id_of(self.total_commitments as nat)
        &&& c.owner == owner
        &&& c.nft_token_id == 0
        &&& c.rules == rules
        &&& c.amount == amount
        &&& c.asset_address == asset
        &&& c.created_at == now
        &&& c.expires_at == now + rules.duration_days * SECONDS_PER_DAY
        &&& c.current_value == amount
        &&& c.status == CommitmentStatus::Active
        &&& post.total_commitments == self.total_commitments + 1
        &&& post.total_value_locked == self.total_value_locked + amount
        &&& post.guard@
        &&& post.in_flight == Some(InFlight::Creation(n as usize))
        &&& post.access == self.access
        &&& post.nft_contract == self.nft_contract
        &&& post.emergency == self.emergency
        &&& post.supported_assets == self.supported_assets
    }

    /// The first check of `settle` that fails, if any.
    pub open spec fn settle_error(&self, id: Seq<char>, now: u64) -> Option<Error> {
        if self.guard@ {
            Some(Error::ReentrancyDetected)
        } else if self.emergency {
            Some(Error::EmergencyMode)
        } else if !self.has_commitment(id) {
            Some(Error::CommitmentNotFound)
        } else if now < self.commitment_of(id).expires_at {
            Some(Error::NotExpired)
        } else if self.commitment_of(id).status == CommitmentStatus::Settled {
            Some(Error::AlreadySettled)
        } else if self.commitment_of(id).status != CommitmentStatus::Active {
            Some(Error::NotActive)
        } else if self.nft_contract.is_none() {
            Some(Error::NotInitialized)
        } else {
            None
        }
    }

    /// `post` is `self` with the commitment under `id` marked settled, its value
    /// taken out of the value locked, and the guard held for the payout.
    pub open spec fn settlement_applied(&self, post: &Self, id: Seq<char>) -> bool {
        let i = self.index_of(id);
        let c = self.commitments@[i];
        &&& post.commitments@ == self.commitments@.update(
            i,
            Commitment { status: CommitmentStatus::Settled, ..c },
        )
        &&& post.total_commitments == self.total_commitments
        &&& post.total_value_locked == self.total_value_locked - c.current_value
        &&& post.guard@
        &&& post.in_flight == Some(InFlight::Settlement(i as usize))
        &&& post.access == self.access
        &&& post.nft_contract == self.nft_contract
        &&& post.emergency == self.emergency
        &&& post.supported_assets == self.supported_assets
    }

    /// `post` is `self` with the pending creation's certificate recorded and the
    /// guard released.
    pub open spec fn creation_completed(&self, post: &Self, nft_token_id: u32) -> bool {
        match self.in_flight {
            Some(InFlight::Creation(i)) => {
                &&& post.commitments@ == self.commitments@.update(
                    i as int,
                    Commitment { nft_token_id: nft_token_id, ..self.commitments@[i as int] },
                )
                &&& post.total_value_locked == self.total_value_locked
                &&& !post.guard@
                &&& post.in_flight.is_none()
                &&& self.same_but_commitments(post)
            },
            _ => false,
        }
    }

    /// `post` follows from `self` by one creation whose interactions completed.
    pub open spec fn creation_round(&self, post: &Self) -> bool {
        exists|
            mid: CommitmentCoreContract,
            owner: String,
            amount: i128,
            asset: String,
            rules: CommitmentRules,
            now: u64,
            nft_token_id: u32,
        |
            #[trigger] self.creation_applied(&mid, owner, amount, asset, rules, now)
                && #[trigger] mid.creation_completed(post, nft_token_id)
    }

    /// `post` is `self` with the settlement's interactions done: the records and
    /// counters are kept and the guard is released.
    pub open spec fn settlement_completed(&self, post: &Self) -> bool {
        &&& post.commitments == self.commitments
        &&& post.total_value_locked == self.total_value_locked
        &&& !post.guard@
        &&& post.in_flight.is_none()
        &&& self.same_but_commitments(post)
    }

    /// The answer `check_violations` gives for a stored commitment at `now`.
    pub open spec fn violation_of(&self, id: Seq<char>, now: u64) -> bool {
        let c = self.commitment_of(id);
        c.status == CommitmentStatus::Active && violated_of(
            c.amount as int,
            c.current_value as int,
            c.rules.max_loss_percent as int,
            c.expires_at,
            now,
        )
    }

    /// `post` differs from `self` in nothing but its commitments' list.
    pub open spec fn same_but_commitments(&self, post: &Self) -> bool {
        &&& post.access == self.access
        &&& post.nft_contract == self.nft_contract
        &&& post.total_commitments == self.total_commitments
        &&& post.emergency == self.emergency
        &&& post.supported_assets == self.supported_assets
    }

    pub proof fn lemma_ids_unique(&self, i: int, j: int)
        requires
            self.wf(),
            0 <= i < self.commitments@.len(),
            0 <= j < self.commitments@.len(),
            self.commitments@[i].commitment_id@ == self.commitments@[j].commitment_id@,
        ensures
            i == j,
    {
        assert(commitment_wf(self.commitments@[i], i));
        assert(commitment_wf(self.commitments@[j], j));
        lemma_commitment_id_injective(i as nat, j as nat);
    }

    proof fn lemma_index_of(&self, i: int)
        requires
            self.wf(),
            0 <= i < self.commitments@.len(),
        ensures
            self.has_commitment(self.commitments@[i].commitment_id@),
            self.index_of(self.commitments@[i].commitment_id@) == i,
    {
        let id = self.commitments@[i].commitment_id@;
        assert(self.commitments@[i].commitment_id@ == id);
        let k = self.index_of(id);
        self.lemma_ids_unique(k, i);
    }

    pub(crate) proof fn lemma_values_nonneg(&self)
        requires
            self.wf(),
        ensures
            values_nonneg(self.commitments@),
    {
        assert forall|i: int| 0 <= i < self.commitments@.len() implies self.commitments@[i].current_value
            >= 0 by {
            assert(commitment_wf(self.commitments@[i], i));
        }
    }

    /// An empty, uninitialized ledger.
    pub fn new() -> (r: CommitmentCoreContract)
        ensures
            r.wf(),
            r.commitments@.len() == 0,
            r.total_commitments == 0,
            r.total_value_locked == 0,
            !r.guard@,
            r.in_flight.is_none(),
            r.access.admin.is_none(),
            r.nft_contract.is_none(),
            !r.emergency,
            r.supported_assets@.len() == 0,
    {
        CommitmentCoreContract {
            access: AccessControl::new(),
            nft_contract: None,
            commitments: Vec::new(),
            total_commitments: 0,
            total_value_locked: 0,
            guard: ReentrancyGuard::new(),
            in_flight: None,
            emergency: false,
            supported_assets: Vec::new(),
        }
    }

    /// Sets the admin and the certificate issuer, once.
    pub fn initialize(&mut self, admin: String, nft_contract: String) -> (r: Result<(), Error>)
        requires
            old(self).wf(),
        ensures
            final(self).wf(),
            old(self).access.admin.is_some() ==> r == Err::<(), Error>(Error::AlreadyInitialized)
                && *final(self) == *old(self),
            old(self).access.admin.is_none() ==> r.is_ok() && final(self).access.admin == Some(
                admin,
            ) && final(self).nft_contract == Some(nft_contract) && final(self).access.authorized
                == old(self).access.authorized && final(self).commitments == old(self).commitments
                && final(self).total_commitments == old(self).total_commitments
                && final(self).total_value_locked == old(self).total_value_locked
                && final(self).guard == old(self).guard && final(self).in_flight == old(
                self,
            ).in_flight && final(self).emergency == old(self).emergency
                && final(self).supported_assets == old(self).supported_assets,
    {
        if self.access.admin.is_some() {
            return Err(Error::AlreadyInitialized);
        }
        self.access.admin = Some(admin);
        self.nft_contract = Some(nft_contract);
        Ok(())
    }

    /// The position of the commitment stored under `id`, if any.
    pub(crate) fn find_commitment(&self, id: &String) -> (r: Option<usize>)
        requires
            self.wf(),
        ensures
            match r {
                Some(i) => self.has_commitment(id@) && i == self.index_of(id@) && i
                    < self.commitments@.len(),
                None => !self.has_commitment(id@),
            },
    {
        let mut i: usize = 0;
        while i < self.commitments.len()
            invariant
                self.wf(),
                i <= self.commitments@.len(),
                forall|j: int| 0 <= j < i ==> self.commitments@[j].commitment_id@ != id@,
            decreases self.commitments@.len() - i,
        {
            if self.commitments[i].commitment_id == *id {
                proof {
                    self.lemma_index_of(i as int);
                }
                return Some(i);
            }
            i += 1;
        }
        None
    }

    fn is_asset_supported(&self, asset: &String) -> (r: bool)
        ensures
            r == self.asset_supported(asset@),
    {
        if self.supported_assets.len() == 0 {
            return true;
        }
        let mut i: usize = 0;
        while i < self.supported_assets.len()
            invariant
                i <= self.supported_assets@.len(),
                self.supported_assets@.len() > 0,
                forall|j: int| 0 <= j < i ==> self.supported_assets@[j]@ != asset@,
            decreases self.supported_assets@.len() - i,
        {
            if self.supported_assets[i] == *asset {
                return true;
            }
            i += 1;
        }
        false
    }

    /// Checks and effects of a new commitment. On success the commitment is
    /// stored as `Active` with `current_value == amount` and no certificate,
    /// the counters are advanced, and the guard stays held until
    /// `complete_creation` records the minted certificate. On failure nothing
    /// changes.
    pub fn create_commitment(
        &mut self,
        owner: String,
        amount: i128,
        asset_address: String,
        rules: CommitmentRules,
        now: u64,
        rate_limited: bool,
    ) -> (r: Result<CreationOrder, Error>)
        requires
            old(self).wf(),
        ensures
            final(self).wf(),
            match old(self).creation_error(amount, asset_address@, rules, now, rate_limited) {
                Some(e) => r == Err::<CreationOrder, Error>(e) && *final(self) == *old(self),
                None => r.is_ok() && old(self).creation_applied(
                    &*final(self),
                    owner,
                    amount,
                    asset_address,
                    rules,
                    now,
                ) && r.unwrap().commitment_id@ == commitment_id_of(
                    old(self).total_commitments as nat,
                ) && r.unwrap().owner == owner && r.unwrap().amount == amount
                    && r.unwrap().asset_address == asset_address && r.unwrap().rules == rules
                    && Some(r.unwrap().nft_contract) == old(self).nft_contract,
            },
    {
        // Checks. They run before the guard is taken, so a failing check leaves
        // the guard, like everything else, as it was.
        if self.guard.is_held() {
            return Err(Error::ReentrancyDetected);
        }
        if self.emergency {
            return Err(Error::EmergencyMode);
        }
        if rate_limited {
            return Err(Error::RateLimited);
        }
        if amount <= 0 {
            return Err(Error::InvalidAmount);
        }
        if let Err(e) = validate_rules(&rules) {
            return Err(e);
        }
        if !self.is_asset_supported(&asset_address) {
            return Err(Error::AssetNotSupported);
        }
        let nft_contract = match &self.nft_contract {
            Some(a) => a.clone(),
            None => {
                    return Err(Error::NotInitialized);
            },
        };
        let current_total = self.total_commitments;
        let current_tvl = self.total_value_locked;
        let expires_at = match now.checked_add(rules.duration_days as u64 * SECONDS_PER_DAY) {
            Some(t) => t,
            None => {
                    return Err(Error::ArithmeticOverflow);
            },
        };
        let new_tvl = match current_tvl.checked_add(amount) {
            Some(v) => v,
            None => {
                    return Err(Error::ArithmeticOverflow);
            },
        };
        if current_total == u64::MAX {
            return Err(Error::ArithmeticOverflow);
        }
        let commitment_id = generate_commitment_id(current_total);
        if self.find_commitment(&commitment_id).is_some() {
            proof {
                let k = self.index_of(commitment_id@);
                assert(commitment_wf(self.commitments@[k], k));
                lemma_commitment_id_injective(k as nat, current_total as nat);
            }
            return Err(Error::InvalidState);
        }
        // Effects.

        let index = self.commitments.len();
        let order = CreationOrder {
            commitment_id: commitment_id.clone(),
            owner: owner.clone(),
            amount,
            asset_address: asset_address.clone(),
            nft_contract,
            rules: rules.duplicate(),
        };
        let commitment = Commitment {
            commitment_id,
            owner,
            nft_token_id: 0,
            rules,
            amount,
            asset_address,
            created_at: now,
            expires_at,
            current_value: amount,
            status: CommitmentStatus::Active,
        };
        let ghost before = self.commitments@;
        // The guard is free (checked above), so taking it cannot fail.
        let _ = self.guard.acquire();
        self.commitments.push(commitment);
        self.total_commitments = current_total + 1;
        self.total_value_locked = new_tvl;
        self.in_flight = Some(InFlight::Creation(index));
        proof {
            lemma_push(before, commitment, Seq::empty(), Seq::empty());
            assert(self.commitments@.take(index as int) =~= before);
            assert forall|i: int| 0 <= i < self.commitments@.len() implies #[trigger] commitment_wf(
                self.commitments@[i],
                i,
            ) by {
                if i < index {
                    assert(self.commitments@[i] == before[i]);
                }
            }
        }
        Ok(order)
    }

    /// Records the certificate minted for the commitment being created, releases
    /// the guard and returns the creation event.
    pub fn complete_creation(&mut self, nft_token_id: u32, now: u64) -> (r: Result<
        CommitmentCreatedEvent,
        Error,
    >)
        requires
            old(self).wf(),
        ensures
            final(self).wf(),
            match old(self).in_flight {
                Some(InFlight::Creation(i)) => {
                    let c = old(self).commitments@[i as int];
                    &&& r.is_ok()
                    &&& old(self).creation_completed(&*final(self), nft_token_id)
                    &&& r.unwrap().commitment_id == c.commitment_id
                    &&& r.unwrap().owner == c.owner
                    &&& r.unwrap().amount == c.amount
                    &&& r.unwrap().asset_address == c.asset_address
                    &&& r.unwrap().nft_token_id == nft_token_id
                    &&& r.unwrap().rules == c.rules
                    &&& r.unwrap().timestamp == now
                },
                _ => r == Err::<CommitmentCreatedEvent, Error>(Error::NoOperationInFlight)
                    && *final(self) == *old(self),
            },
    {
        let index = match self.in_flight {
            Some(InFlight::Creation(i)) => i,
            _ => {
                return Err(Error::NoOperationInFlight);
            },
        };
        let mut c = self.commitments[index].duplicate();
        c.nft_token_id = nft_token_id;
        let event = CommitmentCreatedEvent {
            commitment_id: c.commitment_id.clone(),
            owner: c.owner.clone(),
            amount: c.amount,
            asset_address: c.asset_address.clone(),
            nft_token_id,
            rules: c.rules.duplicate(),
            timestamp: now,
        };
        let ghost before = self.commitments@;
        self.commitments.set(index, c);
        self.guard.release();
        self.in_flight = None;
        proof {
            lemma_update(before, index as int, c, Seq::empty());
            assert forall|i: int| 0 <= i < self.commitments@.len() implies #[trigger] commitment_wf(
                self.commitments@[i],
                i,
            ) by {
                assert(commitment_wf(before[i], i));
            }
        }
        Ok(event)
    }

    /// Checks and effects of settling a matured commitment. On success the
    /// commitment is `Settled`, its value leaves the value locked, and the guard
    /// stays held until `complete_settlement`. On failure nothing changes.
    pub fn settle(&mut self, commitment_id: &String, now: u64) -> (r: Result<
        SettlementOrder,
        Error,
    >)
        requires
            old(self).wf(),
        ensures
            final(self).wf(),
            match old(self).settle_error(commitment_id@, now) {
                Some(e) => r == Err::<SettlementOrder, Error>(e) && *final(self) == *old(self),
                None => {
                    let c = old(self).commitment_of(commitment_id@);
                    &&& r.is_ok()
                    &&& old(self).settlement_applied(&*final(self), commitment_id@)
                    &&& r.unwrap().commitment_id == c.commitment_id
                    &&& r.unwrap().owner == c.owner
                    &&& r.unwrap().settlement_amount == c.current_value
                    &&& r.unwrap().asset_address == c.asset_address
                    &&& Some(r.unwrap().nft_contract) == old(self).nft_contract
                    &&& r.unwrap().nft_token_id == c.nft_token_id
                },
            },
    {
        // Checks.
        if self.guard.is_held() {
            return Err(Error::ReentrancyDetected);
        }
        if self.emergency {
            return Err(Error::EmergencyMode);
        }
        let index = match self.find_commitment(commitment_id) {
            Some(i) => i,
            None => {
                    return Err(Error::CommitmentNotFound);
            },
        };
        if now < self.commitments[index].expires_at {
            return Err(Error::NotExpired);
        }
        if self.commitments[index].status == CommitmentStatus::Settled {
            return Err(Error::AlreadySettled);
        }
        if self.commitments[index].status != CommitmentStatus::Active {
            return Err(Error::NotActive);
        }
        let nft_contract = match &self.nft_contract {
            Some(a) => a.clone(),
            None => {
                    return Err(Error::NotInitialized);
            },
        };
        // Effects.

        let mut c = self.commitments[index].duplicate();
        let settlement_amount = c.current_value;
        c.status = CommitmentStatus::Settled;
        let order = SettlementOrder {
            commitment_id: c.commitment_id.clone(),
            owner: c.owner.clone(),
            settlement_amount,
            asset_address: c.asset_address.clone(),
            nft_contract,
            nft_token_id: c.nft_token_id,
        };
        let ghost before = self.commitments@;
        proof {
            self.lemma_values_nonneg();
            lemma_update(before, index as int, c, Seq::empty());
            assert(values_nonneg(before.update(index as int, c))) by {
                assert forall|i: int| 0 <= i < before.len() implies before.update(
                    index as int,
                    c,
                )[i].current_value >= 0 by {
                    assert(commitment_wf(before[i], i));
                }
            }
            lemma_bounds(before.update(index as int, c), Seq::empty(), 0);
        }
        // The guard is free (checked above), so taking it cannot fail.
        let _ = self.guard.acquire();
        self.commitments.set(index, c);
        self.total_value_locked = self.total_value_locked - settlement_amount;
        self.in_flight = Some(InFlight::Settlement(index));
        proof {
            assert forall|i: int| 0 <= i < self.commitments@.len() implies #[trigger] commitment_wf(
                self.commitments@[i],
                i,
            ) by {
                assert(commitment_wf(before[i], i));
            }
        }
        Ok(order)
    }

    /// Releases the guard once the payout and the certificate update are done,
    /// and returns the settlement event.
    pub fn complete_settlement(&mut self, now: u64) -> (r: Result<
        CommitmentSettledEvent,
        Error,
    >)
        requires
            old(self).wf(),
        ensures
            final(self).wf(),
            match old(self).in_flight {
                Some(InFlight::Settlement(i)) => {
                    let c = old(self).commitments@[i as int];
                    &&& r.is_ok()
                    &&& old(self).settlement_completed(&*final(self))
                    &&& r.unwrap().commitment_id == c.commitment_id
                    &&& r.unwrap().settlement_amount == c.current_value
                    &&& r.unwrap().timestamp == now
                },
                _ => r == Err::<CommitmentSettledEvent, Error>(Error::NoOperationInFlight)
                    && *final(self) == *old(self),
            },
    {
        let index = match self.in_flight {
            Some(InFlight::Settlement(i)) => i,
            _ => {
                return Err(Error::NoOperationInFlight);
            },
        };
        let event = CommitmentSettledEvent {
            commitment_id: self.commitments[index].commitment_id.clone(),
            settlement_amount: self.commitments[index].current_value,
            timestamp: now,
        };
        self.guard.release();
        self.in_flight = None;
        Ok(event)
    }
}

} // verus!
