use commitment_core::commitment::CommitmentStatus;
use commitment_core::error::Error;
use commitment_core::ledger::{CommitmentCoreContract, InFlight};
use commitment_core::rules::CommitmentRules;

const DAY: u64 = 86400;
const START: u64 = 1_000_000;

fn s(x: &str) -> String {
    x.to_string()
}

fn rules(duration_days: u32, max_loss_percent: u32, kind: &str) -> CommitmentRules {
    CommitmentRules {
        duration_days,
        max_loss_percent,
        commitment_type: s(kind),
        early_exit_penalty: 10,
        min_fee_threshold: 1000,
    }
}

fn ledger() -> CommitmentCoreContract {
    let mut l = CommitmentCoreContract::new();
    l.initialize(s("admin"), s("nft")).unwrap();
    l
}

/// Creates a commitment and completes its interactions with certificate `cert`.
fn create(l: &mut CommitmentCoreContract, owner: &str, amount: i128, r: CommitmentRules, cert: u32) -> String {
    let order = l
        .create_commitment(s(owner), amount, s("asset"), r, START, false)
        .unwrap();
    l.complete_creation(cert, START).unwrap();
    order.commitment_id
}

#[test]
fn creation_stores_an_active_commitment() {
    let mut l = ledger();
    let order = l
        .create_commitment(s("alice"), 1000, s("asset"), rules(30, 10, "balanced"), START, false)
        .unwrap();
    assert_eq!(order.commitment_id, "c_0");
    assert_eq!(order.amount, 1000);
    assert_eq!(order.nft_contract, "nft");
    assert_eq!(l.in_flight, Some(InFlight::Creation(0)));
    let event = l.complete_creation(7, START + 5).unwrap();
    assert_eq!(event.nft_token_id, 7);
    assert_eq!(event.timestamp, START + 5);
    let c = l.get_commitment(&s("c_0")).unwrap();
    assert_eq!(c.status, CommitmentStatus::Active);
    assert_eq!(c.current_value, 1000);
    assert_eq!(c.amount, 1000);
    assert_eq!(c.nft_token_id, 7);
    assert_eq!(c.created_at, START);
    assert_eq!(c.expires_at, START + 30 * DAY);
    assert_eq!(l.in_flight, None);
}

#[test]
fn counters_follow_creations() {
    let mut l = ledger();
    assert_eq!(l.get_total_commitments(), 0);
    assert_eq!(l.get_total_value_locked(), 0);
    let a = create(&mut l, "alice", 1000, rules(30, 10, "safe"), 1);
    let b = create(&mut l, "bob", 250, rules(10, 50, "aggressive"), 2);
    let c = create(&mut l, "alice", 40, rules(1, 0, "balanced"), 3);
    assert_eq!((a.as_str(), b.as_str(), c.as_str()), ("c_0", "c_1", "c_2"));
    assert_eq!(l.get_total_commitments(), 3);
    assert_eq!(l.get_total_value_locked(), 1290);
    assert_eq!(l.get_total_value_locked_by_asset(&s("asset")), 1290);
    assert_eq!(l.get_total_value_locked_by_asset(&s("other")), 0);
    assert_eq!(l.get_owner_commitments(&s("alice")), vec![s("c_0"), s("c_2")]);
    assert_eq!(l.get_owner_commitments(&s("bob")), vec![s("c_1")]);
    assert!(l.get_owner_commitments(&s("carol")).is_empty());
}

#[test]
fn creation_rejects_bad_input() {
    let mut l = ledger();
    let cases = [
        (0, rules(30, 10, "safe"), Error::InvalidAmount),
        (-5, rules(30, 10, "safe"), Error::InvalidAmount),
        (100, rules(0, 10, "safe"), Error::InvalidDuration),
        (100, rules(30, 101, "safe"), Error::InvalidMaxLoss),
        (100, rules(30, 10, "reckless"), Error::InvalidCommitmentType),
    ];
    for (amount, r, expected) in cases {
        let res = l.create_commitment(s("alice"), amount, s("asset"), r, START, false);
        assert_eq!(res.err(), Some(expected));
    }
    assert_eq!(l.get_total_commitments(), 0);
    assert_eq!(l.get_total_value_locked(), 0);
    assert!(!l.guard.is_held());
}

#[test]
fn creation_needs_initialization_and_a_quiet_system() {
    let mut fresh = CommitmentCoreContract::new();
    let res = fresh.create_commitment(s("alice"), 100, s("asset"), rules(30, 10, "safe"), START, false);
    assert_eq!(res.err(), Some(Error::NotInitialized));

    let mut l = ledger();
    let res = l.create_commitment(s("alice"), 100, s("asset"), rules(30, 10, "safe"), START, true);
    assert_eq!(res.err(), Some(Error::RateLimited));
    l.set_emergency_mode(&s("admin"), true).unwrap();
    let res = l.create_commitment(s("alice"), 100, s("asset"), rules(30, 10, "safe"), START, false);
    assert_eq!(res.err(), Some(Error::EmergencyMode));
    l.set_emergency_mode(&s("admin"), false).unwrap();
    let res = l.create_commitment(s("alice"), 100, s("asset"), rules(30, 10, "safe"), u64::MAX - 5, false);
    assert_eq!(res.err(), Some(Error::ArithmeticOverflow));
    assert_eq!(l.get_total_commitments(), 0);
}

#[test]
fn asset_whitelist_applies_once_configured() {
    let mut l = ledger();
    assert_eq!(l.add_supported_asset(&s("mallory"), s("usdc")), Err(Error::Unauthorized));
    l.add_supported_asset(&s("admin"), s("usdc")).unwrap();
    let res = l.create_commitment(s("alice"), 100, s("xlm"), rules(30, 10, "safe"), START, false);
    assert_eq!(res.err(), Some(Error::AssetNotSupported));
    assert!(l.create_commitment(s("alice"), 100, s("usdc"), rules(30, 10, "safe"), START, false).is_ok());
}

#[test]
fn initialize_only_once() {
    let mut l = ledger();
    assert_eq!(l.initialize(s("other"), s("nft2")), Err(Error::AlreadyInitialized));
    assert_eq!(l.get_admin(), Ok(s("admin")));
    assert_eq!(l.get_nft_contract(), Ok(s("nft")));
    let fresh = CommitmentCoreContract::new();
    assert_eq!(fresh.get_admin(), Err(Error::NotInitialized));
    assert_eq!(fresh.get_nft_contract(), Err(Error::NotInitialized));
}

#[test]
fn no_violation_within_limits() {
    let mut l = ledger();
    let id = create(&mut l, "alice", 1000, rules(30, 10, "balanced"), 1);
    l.update_value(&s("admin"), &id, 950).unwrap();
    assert_eq!(l.check_violations(&id, START + DAY), Ok(false));
    assert_eq!(
        l.get_violation_details(&id, START + DAY),
        Ok((false, false, false, 5, 29 * DAY))
    );
}

#[test]
fn loss_beyond_limit_is_a_violation() {
    let mut l = ledger();
    let id = create(&mut l, "alice", 1000, rules(30, 10, "balanced"), 1);
    l.update_value(&s("admin"), &id, 890).unwrap();
    assert_eq!(l.check_violations(&id, START + DAY), Ok(true));
    let (has, loss, duration, percent, remaining) = l.get_violation_details(&id, START + DAY).unwrap();
    assert!(has);
    assert!(loss);
    assert!(!duration);
    assert_eq!(percent, 11);
    assert_eq!(remaining, 29 * DAY);
}

#[test]
fn expiry_alone_is_a_violation() {
    let mut l = ledger();
    let id = create(&mut l, "alice", 1000, rules(30, 10, "balanced"), 1);
    let expires = START + 30 * DAY;
    assert_eq!(l.check_violations(&id, expires), Ok(true));
    assert_eq!(l.get_violation_details(&id, expires), Ok((true, false, true, 0, 0)));
    assert_eq!(l.check_violations(&id, expires - 1), Ok(false));
}

#[test]
fn check_violations_is_repeatable() {
    let mut l = ledger();
    let id = create(&mut l, "alice", 1000, rules(30, 10, "balanced"), 1);
    l.update_value(&s("admin"), &id, 890).unwrap();
    let first = l.check_violations(&id, START + DAY);
    let second = l.check_violations(&id, START + DAY);
    assert_eq!(first, second);
    assert_eq!(l.get_commitment(&id).unwrap().status, CommitmentStatus::Active);
    assert_eq!(l.check_violations(&s("c_9"), START), Err(Error::CommitmentNotFound));
}

#[test]
fn gain_reports_negative_loss() {
    let mut l = ledger();
    let id = create(&mut l, "alice", 1000, rules(30, 10, "safe"), 1);
    l.update_value(&s("admin"), &id, 1205).unwrap();
    let details = l.get_violation_details(&id, START).unwrap();
    assert_eq!(details, (false, false, false, -20, 30 * DAY));
}

#[test]
fn settle_lifecycle() {
    let mut l = ledger();
    let id = create(&mut l, "alice", 1000, rules(30, 10, "balanced"), 4);
    create(&mut l, "bob", 500, rules(60, 10, "balanced"), 5);
    l.update_value(&s("admin"), &id, 1100).unwrap();
    assert_eq!(l.get_total_value_locked(), 1600);
    let expires = START + 30 * DAY;
    assert_eq!(l.settle(&id, expires - 1).err(), Some(Error::NotExpired));
    assert_eq!(l.get_total_value_locked(), 1600);

    let order = l.settle(&id, expires).unwrap();
    assert_eq!(order.settlement_amount, 1100);
    assert_eq!(order.owner, "alice");
    assert_eq!(order.nft_token_id, 4);
    assert_eq!(l.get_total_value_locked(), 500);
    assert_eq!(l.get_commitment(&id).unwrap().status, CommitmentStatus::Settled);
    let event = l.complete_settlement(expires + 1).unwrap();
    assert_eq!(event.settlement_amount, 1100);
    assert_eq!(event.commitment_id, id);

    assert_eq!(l.settle(&id, expires + DAY).err(), Some(Error::AlreadySettled));
    assert_eq!(l.check_violations(&id, expires + DAY), Ok(false));
    assert_eq!(l.get_total_value_locked(), 500);
    assert_eq!(l.get_total_commitments(), 2);
    assert_eq!(l.settle(&s("c_7"), expires).err(), Some(Error::CommitmentNotFound));
}

#[test]
fn reentrant_calls_are_refused() {
    let mut l = ledger();
    let first = create(&mut l, "alice", 1000, rules(1, 10, "safe"), 1);
    let order = l
        .create_commitment(s("bob"), 300, s("asset"), rules(30, 10, "safe"), START, false)
        .unwrap();
    // While the deposit and mint of the second commitment are pending, a callee
    // calls back into the ledger.
    let total = l.get_total_commitments();
    let tvl = l.get_total_value_locked();
    let again = l.create_commitment(s("bob"), 300, s("asset"), rules(30, 10, "safe"), START, false);
    assert_eq!(again.err(), Some(Error::ReentrancyDetected));
    assert_eq!(l.settle(&first, START + 2 * DAY).err(), Some(Error::ReentrancyDetected));
    assert_eq!(l.update_value(&s("admin"), &first, 1), Err(Error::ReentrancyDetected));
    assert_eq!(l.get_total_commitments(), total);
    assert_eq!(l.get_total_value_locked(), tvl);
    assert_eq!(l.get_commitment(&first).unwrap().status, CommitmentStatus::Active);
    assert_eq!(l.complete_settlement(START).err(), Some(Error::NoOperationInFlight));

    l.complete_creation(2, START).unwrap();
    assert_eq!(order.commitment_id, "c_1");
    assert!(l.settle(&first, START + 2 * DAY).is_ok());
    let blocked = l.create_commitment(s("carol"), 5, s("asset"), rules(30, 10, "safe"), START, false);
    assert_eq!(blocked.err(), Some(Error::ReentrancyDetected));
    assert_eq!(l.complete_creation(3, START).err(), Some(Error::NoOperationInFlight));
    l.complete_settlement(START + 2 * DAY).unwrap();
    assert!(!l.guard.is_held());
}

#[test]
fn value_updates_need_authorization() {
    let mut l = ledger();
    let id = create(&mut l, "alice", 1000, rules(30, 10, "safe"), 1);
    assert_eq!(l.update_value(&s("mallory"), &id, 10), Err(Error::Unauthorized));
    assert!(!l.is_authorized_allocator(&s("pool")));
    l.add_authorized_allocator(&s("admin"), s("pool")).unwrap();
    assert_eq!(l.add_authorized_allocator(&s("admin"), s("pool")), Err(Error::Unauthorized));
    assert!(l.is_authorized_allocator(&s("pool")));
    assert!(l.is_authorized_allocator(&s("admin")));
    l.update_value(&s("pool"), &id, 700).unwrap();
    assert_eq!(l.get_total_value_locked(), 700);
    assert_eq!(l.update_value(&s("pool"), &id, -1), Err(Error::InvalidAmount));
    assert_eq!(l.update_value(&s("pool"), &s("c_5"), 1), Err(Error::CommitmentNotFound));
    assert_eq!(l.allocate(&s("pool"), &id, &s("strategy"), 100), Ok(()));
    assert_eq!(l.allocate(&s("pool"), &id, &s("strategy"), 0), Err(Error::InvalidAmount));
    l.remove_authorized_allocator(&s("admin"), &s("pool")).unwrap();
    assert_eq!(l.remove_authorized_allocator(&s("admin"), &s("pool")), Err(Error::Unauthorized));
    assert_eq!(l.update_value(&s("pool"), &id, 10), Err(Error::Unauthorized));
    assert_eq!(l.allocate(&s("pool"), &id, &s("strategy"), 100), Err(Error::Unauthorized));
    assert_eq!(CommitmentCoreContract::new().update_value(&s("pool"), &id, 10), Err(Error::NotInitialized));
}

#[test]
fn admin_can_be_handed_over() {
    let mut l = ledger();
    assert_eq!(l.update_admin(&s("mallory"), s("mallory")), Err(Error::Unauthorized));
    l.update_admin(&s("admin"), s("admin2")).unwrap();
    assert_eq!(l.get_admin(), Ok(s("admin2")));
    assert_eq!(l.set_emergency_mode(&s("admin"), true), Err(Error::Unauthorized));
    assert_eq!(l.set_emergency_mode(&s("admin2"), true), Ok(()));
    assert!(l.emergency);
}

#[test]
fn early_exit_checks_owner_and_status() {
    let mut l = ledger();
    let id = create(&mut l, "alice", 1000, rules(1, 10, "safe"), 1);
    assert_eq!(l.early_exit(&id, &s("bob")), Err(Error::Unauthorized));
    assert_eq!(l.early_exit(&id, &s("alice")), Ok(()));
    assert_eq!(l.early_exit(&s("c_3"), &s("alice")), Err(Error::CommitmentNotFound));
    l.settle(&id, START + DAY).unwrap();
    l.complete_settlement(START + DAY).unwrap();
    assert_eq!(l.early_exit(&id, &s("alice")), Err(Error::NotActive));
    assert_eq!(l.get_total_value_locked(), 0);
}
