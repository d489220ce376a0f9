use commitment_core::error::Error;
use commitment_core::id::generate_commitment_id;
use commitment_core::rules::{validate_rules, CommitmentRules};
use commitment_core::violation::{evaluate_violations, loss_percent, LOSS_BOUND};

fn rules(duration_days: u32, max_loss_percent: u32, kind: &str) -> CommitmentRules {
    CommitmentRules {
        duration_days,
        max_loss_percent,
        commitment_type: kind.to_string(),
        early_exit_penalty: 0,
        min_fee_threshold: 0,
    }
}

#[test]
fn loss_percent_values() {
    assert_eq!(loss_percent(1000, 900), 10);
    assert_eq!(loss_percent(0, 0), 0);
    assert_eq!(loss_percent(1000, 950), 5);
    assert_eq!(loss_percent(1000, 890), 11);
    assert_eq!(loss_percent(3, 2), 33);
    assert_eq!(loss_percent(1000, 1005), 0);
    assert_eq!(loss_percent(1000, 1015), -1);
    assert_eq!(loss_percent(-10, 5), 0);
    assert_eq!(loss_percent(LOSS_BOUND, 0), 100);
}

#[test]
fn violation_details_fields() {
    let d = evaluate_violations(1000, 890, 10, 500, 100);
    assert!(d.has_violation && d.loss_violated && !d.duration_violated);
    assert_eq!(d.loss_percent, 11);
    assert_eq!(d.time_remaining, 400);
    let d = evaluate_violations(1000, 1000, 10, 500, 700);
    assert!(d.has_violation && !d.loss_violated && d.duration_violated);
    assert_eq!(d.time_remaining, 0);
    let d = evaluate_violations(1000, 900, 10, 500, 499);
    assert!(!d.has_violation);
    assert_eq!(d.time_remaining, 1);
}

#[test]
fn rule_validation() {
    assert_eq!(validate_rules(&rules(30, 10, "safe")), Ok(()));
    assert_eq!(validate_rules(&rules(1, 100, "balanced")), Ok(()));
    assert_eq!(validate_rules(&rules(1, 0, "aggressive")), Ok(()));
    assert_eq!(validate_rules(&rules(0, 10, "safe")), Err(Error::InvalidDuration));
    assert_eq!(validate_rules(&rules(0, 500, "bogus")), Err(Error::InvalidDuration));
    assert_eq!(validate_rules(&rules(5, 101, "bogus")), Err(Error::InvalidMaxLoss));
    assert_eq!(validate_rules(&rules(5, 10, "Safe")), Err(Error::InvalidCommitmentType));
    assert_eq!(validate_rules(&rules(5, 10, "")), Err(Error::InvalidCommitmentType));
}

#[test]
fn ids_from_counter() {
    assert_eq!(generate_commitment_id(0), "c_0");
    assert_eq!(generate_commitment_id(7), "c_7");
    assert_eq!(generate_commitment_id(10), "c_10");
    assert_eq!(generate_commitment_id(1234567890), "c_1234567890");
    assert_eq!(generate_commitment_id(u64::MAX), "c_18446744073709551615");
}
