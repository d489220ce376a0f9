use commitment_core::certificate::{CommitmentNFTContract, ContractError};

fn s(x: &str) -> String {
    x.to_string()
}

fn registry() -> CommitmentNFTContract {
    let mut r = CommitmentNFTContract::new();
    r.initialize(s("admin")).unwrap();
    r
}

fn mint(r: &mut CommitmentNFTContract, owner: &str, id: &str, now: u64) -> Result<u32, ContractError> {
    r.mint(&s("admin"), s(owner), s(id), 30, 10, s("safe"), 1000, s("asset"), now)
}

#[test]
fn mint_assigns_increasing_token_ids() {
    let mut r = registry();
    assert_eq!(r.total_supply(), 0);
    assert_eq!(mint(&mut r, "alice", "c_0", 100), Ok(1));
    assert_eq!(mint(&mut r, "bob", "c_1", 100), Ok(2));
    assert_eq!(mint(&mut r, "alice", "c_2", 100), Ok(3));
    assert_eq!(r.total_supply(), 3);
    let nft = r.get_metadata(2).unwrap();
    assert_eq!(nft.owner, "bob");
    assert_eq!(nft.token_id, 2);
    assert!(nft.is_active);
    assert_eq!(nft.metadata.commitment_id, "c_1");
    assert_eq!(nft.metadata.expires_at, 100 + 30 * 86400);
    assert_eq!(r.balance_of(&s("alice")), 2);
    assert_eq!(r.balance_of(&s("carol")), 0);
    let ids: Vec<u32> = r.get_nfts_by_owner(&s("alice")).iter().map(|n| n.token_id).collect();
    assert_eq!(ids, vec![1, 3]);
    assert_eq!(r.get_all_metadata().len(), 3);
    assert!(r.token_exists(3));
    assert!(!r.token_exists(0));
    assert!(!r.token_exists(4));
}

#[test]
fn mint_rejects_bad_parameters() {
    let mut r = registry();
    let bad = |r: &mut CommitmentNFTContract, d: u32, m: u32, t: &str, a: i128| {
        r.mint(&s("admin"), s("alice"), s("c_0"), d, m, s(t), a, s("asset"), 0)
    };
    assert_eq!(bad(&mut r, 0, 10, "safe", 1), Err(ContractError::InvalidDuration));
    assert_eq!(bad(&mut r, 1, 101, "safe", 1), Err(ContractError::InvalidMaxLoss));
    assert_eq!(bad(&mut r, 1, 10, "wild", 1), Err(ContractError::InvalidCommitmentType));
    assert_eq!(bad(&mut r, 1, 10, "safe", 0), Err(ContractError::InvalidAmount));
    assert_eq!(
        r.mint(&s("mallory"), s("alice"), s("c_0"), 1, 1, s("safe"), 1, s("asset"), 0),
        Err(ContractError::NotAuthorized)
    );
    assert_eq!(
        CommitmentNFTContract::new().mint(&s("admin"), s("a"), s("c"), 1, 1, s("safe"), 1, s("x"), 0),
        Err(ContractError::NotInitialized)
    );
    assert_eq!(r.total_supply(), 0);
}

#[test]
fn minters_can_be_authorized() {
    let mut r = registry();
    assert_eq!(r.add_authorized_minter(&s("mallory"), s("core")), Err(ContractError::NotAuthorized));
    r.add_authorized_minter(&s("admin"), s("core")).unwrap();
    r.add_authorized_minter(&s("admin"), s("core")).unwrap();
    assert!(r.is_authorized(&s("core")));
    assert_eq!(r.mint(&s("core"), s("alice"), s("c_0"), 1, 1, s("safe"), 1, s("x"), 0), Ok(1));
    r.remove_authorized_contract(&s("admin"), &s("core")).unwrap();
    assert!(!r.is_authorized(&s("core")));
    assert_eq!(r.add_authorized_contract(&s("admin"), s("vault")), Ok(()));
    assert_eq!(r.add_authorized_contract(&s("admin"), s("vault")), Err(ContractError::NotAuthorized));
    assert_eq!(r.initialize(s("x")), Err(ContractError::AlreadyInitialized));
}

#[test]
fn transfer_changes_owner() {
    let mut r = registry();
    mint(&mut r, "alice", "c_0", 0).unwrap();
    assert_eq!(r.transfer(&s("bob"), s("carol"), 1), Err(ContractError::NotOwner));
    assert_eq!(r.transfer(&s("alice"), s("bob"), 9), Err(ContractError::TokenNotFound));
    r.transfer(&s("alice"), s("bob"), 1).unwrap();
    assert_eq!(r.owner_of(1), Ok(s("bob")));
    assert_eq!(r.balance_of(&s("alice")), 0);
    assert_eq!(r.balance_of(&s("bob")), 1);
}

#[test]
fn settle_after_expiry_only_once() {
    let mut r = registry();
    mint(&mut r, "alice", "c_0", 0).unwrap();
    let expires = 30 * 86400;
    assert_eq!(r.is_expired(1, expires - 1), Ok(false));
    assert_eq!(r.settle(1, expires - 1), Err(ContractError::NotExpired));
    assert_eq!(r.is_active(1), Ok(true));
    assert_eq!(r.settle(1, expires), Ok(()));
    assert_eq!(r.is_active(1), Ok(false));
    assert_eq!(r.settle(1, expires), Err(ContractError::AlreadySettled));
    assert_eq!(r.settle(2, expires), Err(ContractError::TokenNotFound));
    assert_eq!(r.is_expired(1, expires), Ok(true));
}

#[test]
fn admin_configuration() {
    let mut r = registry();
    assert_eq!(r.get_core_contract(), Err(ContractError::NotInitialized));
    assert_eq!(r.set_core_contract(&s("mallory"), s("core")), Err(ContractError::NotAuthorized));
    r.set_core_contract(&s("admin"), s("core")).unwrap();
    assert_eq!(r.get_core_contract(), Ok(s("core")));
    r.set_emergency_mode(&s("admin"), true).unwrap();
    assert!(r.emergency);
    r.update_admin(&s("admin"), s("admin2")).unwrap();
    assert_eq!(r.get_admin(), Ok(s("admin2")));
    assert_eq!(CommitmentNFTContract::new().get_admin(), Err(ContractError::NotInitialized));
}
