use vstd::prelude::*;

use crate::commitment::{
    active_value,
    asset_value,
    commitment_wf,
    ids_of_owner,
    lemma_bounds,
    Commitment,
    CommitmentStatus,
};
use crate::error::Error;
use crate::ledger::CommitmentCoreContract;
use crate::violation::{
    evaluate_violations,
    loss_percent_of,
    loss_violated_of,
    duration_violated_of,
    time_remaining_of,
    violated_of,
};

verus! {

impl CommitmentCoreContract {
    /// A copy of the commitment stored under `commitment_id`.
    pub fn get_commitment(&self, commitment_id: &String) -> (r: Result<Commitment, Error>)
        requires
            self.wf(),
        ensures
            self.has_commitment(commitment_id@) ==> r == Ok::<Commitment, Error>(
                self.commitment_of(commitment_id@),
            ),
            !self.has_commitment(commitment_id@) ==> r == Err::<Commitment, Error>(
                Error::CommitmentNotFound,
            ),
    {
        match self.find_commitment(commitment_id) {
            Some(i) => Ok(self.commitments[i].duplicate()),
            None => Err(Error::CommitmentNotFound),
        }
    }

    /// The ids of the commitments of `owner`, in creation order.
    pub fn get_owner_commitments(&self, owner: &String) -> (r: Vec<String>)
        requires
            self.wf(),
        ensures
            r@.map_values(|s: String| s@) == ids_of_owner(self.commitments@, owner@),
    {
        let mut ids: Vec<String> = Vec::new();
        let mut i: usize = 0;
        while i < self.commitments.len()
            invariant
                i <= self.commitments@.len(),
                ids@.map_values(|s: String| s@) == ids_of_owner(
                    self.commitments@.take(i as int),
                    owner@,
                ),
            decreases self.commitments@.len() - i,
        {
            let ghost prefix = self.commitments@.take(i as int);
            proof {
                assert(self.commitments@.take(i + 1).drop_last() =~= prefix);
            }
            if self.commitments[i].owner == *owner {
                ids.push(self.commitments[i].commitment_id.clone());
            }
            i += 1;
            proof {
                assert(ids@.map_values(|s: String| s@) =~= ids_of_owner(
                    self.commitments@.take(i as int),
                    owner@,
                ));
            }
        }
        proof {
            assert(self.commitments@.take(i as int) =~= self.commitments@);
        }
        ids
    }

    /// The number of commitments ever created.
    pub fn get_total_commitments(&self) -> (r: u64)
        ensures
            r == self.total_commitments,
    {
        self.total_commitments
    }

    /// The value locked across all active commitments.
    pub fn get_total_value_locked(&self) -> (r: i128)
        requires
            self.wf(),
        ensures
            r == self.total_value_locked,
            r == active_value(self.commitments@),
    {
        self.total_value_locked
    }

    /// The value locked across the active commitments in `asset`.
    pub fn get_total_value_locked_by_asset(&self, asset: &String) -> (r: i128)
        requires
            self.wf(),
        ensures
            r == asset_value(self.commitments@, asset@),
    {
        proof {
            self.lemma_values_nonneg();
        }
        let mut total: i128 = 0;
        let mut i: usize = 0;
        while i < self.commitments.len()
            invariant
                self.wf(),
                crate::commitment::values_nonneg(self.commitments@),
                i <= self.commitments@.len(),
                total == asset_value(self.commitments@.take(i as int), asset@),
            decreases self.commitments@.len() - i,
        {
            proof {
                assert(self.commitments@.take(i + 1).drop_last() =~= self.commitments@.take(
                    i as int,
                ));
                lemma_bounds(self.commitments@, asset@, i + 1);
            }
            let c = &self.commitments[i];
            if c.status == CommitmentStatus::Active && c.asset_address == *asset {
                total = total + c.current_value;
            }
            i += 1;
        }
        proof {
            assert(self.commitments@.take(i as int) =~= self.commitments@);
        }
        total
    }

    /// Whether the commitment under `commitment_id` breaks its loss limit or has
    /// reached maturity at `now`. A commitment that is no longer active reports
    /// `false`. Nothing is changed.
    pub fn check_violations(&self, commitment_id: &String, now: u64) -> (r: Result<bool, Error>)
        requires
            self.wf(),
        ensures
            self.has_commitment(commitment_id@) ==> r == Ok::<bool, Error>(
                self.violation_of(commitment_id@, now),
            ),
            !self.has_commitment(commitment_id@) ==> r == Err::<bool, Error>(
                Error::CommitmentNotFound,
            ),
    {
        let index = match self.find_commitment(commitment_id) {
            Some(i) => i,
            None => {
                return Err(Error::CommitmentNotFound);
            },
        };
        let c = &self.commitments[index];
        if c.status != CommitmentStatus::Active {
            return Ok(false);
        }
        proof {
            assert(commitment_wf(self.commitments@[index as int], index as int));
        }
        let details = evaluate_violations(
            c.amount,
            c.current_value,
            c.rules.max_loss_percent,
            c.expires_at,
            now,
        );
        Ok(details.has_violation)
    }

    /// The full violation report of the commitment under `commitment_id` at `now`:
    /// `(has_violation, loss_violated, duration_violated, loss_percent,
    /// time_remaining)`. Unlike `check_violations` it reports on any status.
    pub fn get_violation_details(&self, commitment_id: &String, now: u64) -> (r: Result<
        (bool, bool, bool, i128, u64),
        Error,
    >)
        requires
            self.wf(),
        ensures
            !self.has_commitment(commitment_id@) ==> r == Err::<
                (bool, bool, bool, i128, u64),
                Error,
            >(Error::CommitmentNotFound),
            self.has_commitment(commitment_id@) ==> {
                let c = self.commitment_of(commitment_id@);
                let amount = c.amount as int;
                let value = c.current_value as int;
                let max_loss = c.rules.max_loss_percent as int;
                r == Ok::<(bool, bool, bool, i128, u64), Error>(
                    (
                        violated_of(amount, value, max_loss, c.expires_at, now),
                        loss_violated_of(amount, value, max_loss),
                        duration_violated_of(c.expires_at, now),
                        loss_percent_of(amount, value) as i128,
                        time_remaining_of(c.expires_at, now),
                    ),
                )
            },
    {
        let index = match self.find_commitment(commitment_id) {
            Some(i) => i,
            None => {
                return Err(Error::CommitmentNotFound);
            },
        };
        let c = &self.commitments[index];
        proof {
            assert(commitment_wf(self.commitments@[index as int], index as int));
        }
        let d = evaluate_violations(
            c.amount,
            c.current_value,
            c.rules.max_loss_percent,
            c.expires_at,
            now,
        );
        Ok((d.has_violation, d.loss_violated, d.duration_violated, d.loss_percent, d.time_remaining))
    }

    /// The certificate issuer's address.
    pub fn get_nft_contract(&self) -> (r: Result<String, Error>)
        ensures
            match self.nft_contract {
                Some(a) => r == Ok::<String, Error>(a),
                None => r == Err::<String, Error>(Error::NotInitialized),
            },
    {
        match &self.nft_contract {
            Some(a) => Ok(a.clone()),
            None => Err(Error::NotInitialized),
        }
    }
}

} // verus!
