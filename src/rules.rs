use vstd::prelude::*;

use crate::error::Error;

verus! {

/// The risk rules a commitment is locked under.
#[derive(Clone, Debug)]
pub struct CommitmentRules {
    pub duration_days: u32,
    pub max_loss_percent: u32,
    /// One of "safe", "balanced", "aggressive".
    pub commitment_type: String,
    /// Stored with the commitment; no formula uses it yet.
    pub early_exit_penalty: u32,
    /// Stored with the commitment; no formula uses it yet.
    pub min_fee_threshold: i128,
}

/// The commitment types the ledger accepts.
pub open spec fn is_valid_commitment_type(t: Seq<char>) -> bool {
    t == "safe"@ || t == "balanced"@ || t == "aggressive"@
}

/// Rules that `validate_rules` accepts.
pub open spec fn rules_valid(rules: CommitmentRules) -> bool {
    &&& rules.duration_days > 0
    &&& rules.max_loss_percent <= 100
    &&& is_valid_commitment_type(rules.commitment_type@)
}

/// The error `validate_rules` reports for `rules`, checking the duration, then the
/// loss limit, then the type.
pub open spec fn rules_error(rules: CommitmentRules) -> Option<Error> {
    if rules.duration_days == 0 {
        Some(Error::InvalidDuration)
    } else if rules.max_loss_percent > 100 {
        Some(Error::InvalidMaxLoss)
    } else if !is_valid_commitment_type(rules.commitment_type@) {
        Some(Error::InvalidCommitmentType)
    } else {
        None
    }
}

impl CommitmentRules {
    /// A field-by-field copy that callers can reason about.
    pub fn duplicate(&self) -> (r: CommitmentRules)
        ensures
            r == *self,
    {
        CommitmentRules {
            duration_days: self.duration_days,
            max_loss_percent: self.max_loss_percent,
            commitment_type: self.commitment_type.clone(),
            early_exit_penalty: self.early_exit_penalty,
            min_fee_threshold: self.min_fee_threshold,
        }
    }
}

/// Whether `t` names one of the three commitment types.
pub fn is_valid_type(t: &String) -> (r: bool)
    ensures
        r == is_valid_commitment_type(t@),
{
    let safe = String::from_str("safe");
    let balanced = String::from_str("balanced");
    let aggressive = String::from_str("aggressive");
    *t == safe || *t == balanced || *t == aggressive
}

/// Checks the rules of a new commitment. Pure: no state is read or written.
pub fn validate_rules(rules: &CommitmentRules) -> (r: Result<(), Error>)
    ensures
        r.is_ok() <==> rules_valid(*rules),
        r.is_ok() <==> rules_error(*rules).is_none(),
        r.is_err() ==> r == Err::<(), Error>(rules_error(*rules).unwrap()),
{
    if rules.duration_days == 0 {
        return Err(Error::InvalidDuration);
    }
    if rules.max_loss_percent > 100 {
        return Err(Error::InvalidMaxLoss);
    }
    if !is_valid_type(&rules.commitment_type) {
        return Err(Error::InvalidCommitmentType);
    }
    Ok(())
}

} // verus!
