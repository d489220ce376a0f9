use vstd::prelude::*;

use crate::commitment::{
    commitment_wf,
    lemma_bounds,
    lemma_update,
    Commitment,
    CommitmentStatus,
};
use crate::error::{error_of_access, Error};
use crate::ledger::CommitmentCoreContract;
use crate::violation::loss_in_range;

verus! {

impl CommitmentCoreContract {
    /// The first check of `update_value` that fails, if any.
    pub open spec fn update_error(&self, caller: Seq<char>, id: Seq<char>, new_value: i128) -> Option<
        Error,
    > {
        let c = self.commitment_of(id);
        if self.guard@ {
            Some(Error::ReentrancyDetected)
        } else if self.access.authorized_error(caller).is_some() {
            Some(error_of_access(self.access.authorized_error(caller).unwrap()))
        } else if !self.has_commitment(id) {
            Some(Error::CommitmentNotFound)
        } else if c.status != CommitmentStatus::Active {
            Some(Error::NotActive)
        } else if new_value < 0 {
            Some(Error::InvalidAmount)
        } else if !loss_in_range(c.amount as int, new_value as int) {
            Some(Error::ArithmeticOverflow)
        } else if self.total_value_locked - c.current_value + new_value > i128::MAX {
            Some(Error::ArithmeticOverflow)
        } else {
            None
        }
    }

    /// Records a new market value for an active commitment (admin or authorized
    /// allocator only) and moves the value locked by the difference.
    pub fn update_value(&mut self, caller: &String, commitment_id: &String, new_value: i128) -> (r:
        Result<(), Error>)
        requires
            old(self).wf(),
        ensures
            final(self).wf(),
            match old(self).update_error(caller@, commitment_id@, new_value) {
                Some(e) => r == Err::<(), Error>(e) && *final(self) == *old(self),
                None => {
                    let i = old(self).index_of(commitment_id@);
                    let c = old(self).commitments@[i];
                    &&& r.is_ok()
                    &&& final(self).commitments@ == old(self).commitments@.update(
                        i,
                        Commitment { current_value: new_value, ..c },
                    )
                    &&& final(self).total_value_locked == old(self).total_value_locked
                        - c.current_value + new_value
                    &&& final(self).guard == old(self).guard
                    &&& final(self).in_flight == old(self).in_flight
                    &&& old(self).same_but_commitments(&*final(self))
                },
            },
    {
        // The update makes no external call: the guard is checked, not taken.
        if self.guard.is_held() {
            return Err(Error::ReentrancyDetected);
        }
        match self.access.require_authorized(caller) {
            Ok(()) => {},
            Err(e) => {
                return Err(Error::from(e));
            },
        }
        let index = match self.find_commitment(commitment_id) {
            Some(i) => i,
            None => {
                return Err(Error::CommitmentNotFound);
            },
        };
        if self.commitments[index].status != CommitmentStatus::Active {
            return Err(Error::NotActive);
        }
        if new_value < 0 {
            return Err(Error::InvalidAmount);
        }
        let amount = self.commitments[index].amount;
        let old_value = self.commitments[index].current_value;
        proof {
            assert(commitment_wf(self.commitments@[index as int], index as int));
        }
        if amount >= new_value {
            if amount - new_value > crate::violation::LOSS_BOUND {
                return Err(Error::ArithmeticOverflow);
            }
        } else if new_value - amount > crate::violation::LOSS_BOUND {
            return Err(Error::ArithmeticOverflow);
        }
        let ghost before = self.commitments@;
        proof {
            self.lemma_values_nonneg();
            lemma_bounds(before, Seq::empty(), 0);
        }
        let base = self.total_value_locked - old_value;
        let new_tvl = match base.checked_add(new_value) {
            Some(v) => v,
            None => {
                return Err(Error::ArithmeticOverflow);
            },
        };
        let mut c = self.commitments[index].duplicate();
        c.current_value = new_value;
        self.commitments.set(index, c);
        self.total_value_locked = new_tvl;
        proof {
            lemma_update(before, index as int, c, Seq::empty());
            assert forall|i: int| 0 <= i < self.commitments@.len() implies #[trigger] commitment_wf(
                self.commitments@[i],
                i,
            ) by {
                assert(commitment_wf(before[i], i));
            }
        }
        Ok(())
    }

    /// Owner-initiated exit before maturity. Only the checks are defined: the
    /// commitment exists, `caller` owns it, and it is active. No penalty or
    /// payout is computed and nothing changes.
    pub fn early_exit(&self, commitment_id: &String, caller: &String) -> (r: Result<(), Error>)
        requires
            self.wf(),
        ensures
            !self.has_commitment(commitment_id@) ==> r == Err::<(), Error>(
                Error::CommitmentNotFound,
            ),
            self.has_commitment(commitment_id@) ==> {
                let c = self.commitment_of(commitment_id@);
                if c.owner@ != caller@ {
                    r == Err::<(), Error>(Error::Unauthorized)
                } else if c.status != CommitmentStatus::Active {
                    r == Err::<(), Error>(Error::NotActive)
                } else {
                    r.is_ok()
                }
            },
    {
        let index = match self.find_commitment(commitment_id) {
            Some(i) => i,
            None => {
                return Err(Error::CommitmentNotFound);
            },
        };
        if self.commitments[index].owner != *caller {
            return Err(Error::Unauthorized);
        }
        if self.commitments[index].status != CommitmentStatus::Active {
            return Err(Error::NotActive);
        }
        Ok(())
    }

    /// Moves locked liquidity into a yield strategy (admin or authorized
    /// allocator only). Only the checks are defined: the caller is authorized,
    /// the commitment exists and is active, and the amount is positive. Nothing
    /// changes.
    pub fn allocate(
        &self,
        caller: &String,
        commitment_id: &String,
        target_pool: &String,
        amount: i128,
    ) -> (r: Result<(), Error>)
        requires
            self.wf(),
        ensures
            match self.access.authorized_error(caller@) {
                Some(e) => r == Err::<(), Error>(error_of_access(e)),
                None => if !self.has_commitment(commitment_id@) {
                    r == Err::<(), Error>(Error::CommitmentNotFound)
                } else if self.commitment_of(commitment_id@).status != CommitmentStatus::Active {
                    r == Err::<(), Error>(Error::NotActive)
                } else if amount <= 0 {
                    r == Err::<(), Error>(Error::InvalidAmount)
                } else {
                    r.is_ok()
                },
            },
    {
        match self.access.require_authorized(caller) {
            Ok(()) => {},
            Err(e) => {
                return Err(Error::from(e));
            },
        }
        let index = match self.find_commitment(commitment_id) {
            Some(i) => i,
            None => {
                return Err(Error::CommitmentNotFound);
            },
        };
        if self.commitments[index].status != CommitmentStatus::Active {
            return Err(Error::NotActive);
        }
        if amount <= 0 {
            return Err(Error::InvalidAmount);
        }
        Ok(())
    }
}

} // verus!
