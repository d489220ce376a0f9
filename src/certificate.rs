use vstd::prelude::*;

use crate::access::AccessControl;
use crate::commitment::SECONDS_PER_DAY;
use crate::error::AccessControlError;
use crate::rules::{is_valid_commitment_type, is_valid_type};

verus! {

/// Errors of the certificate registry.
#[derive(Clone, Copy, Debug, PartialEq, Eq, Structural)]
pub enum ContractError {
    /// No admin has been configured yet.
    NotInitialized,
    /// `initialize` was called a second time.
    AlreadyInitialized,
    /// No certificate carries the given token id.
    TokenNotFound,
    /// The token id is out of range.
    InvalidTokenId,
    /// The sender does not own the certificate.
    NotOwner,
    /// The caller lacks the role the operation asks for.
    NotAuthorized,
    /// The certificate may not change hands.
    TransferNotAllowed,
    /// The certificate is no longer active.
    AlreadySettled,
    /// The commitment behind the certificate has not expired yet.
    NotExpired,
    /// `duration_days` is zero.
    InvalidDuration,
    /// `max_loss_percent` is above 100.
    InvalidMaxLoss,
    /// The commitment type is none of "safe", "balanced", "aggressive".
    InvalidCommitmentType,
    /// The initial amount is not strictly positive.
    InvalidAmount,
    /// Kept for callers that match on the access-control family as a whole.
    AccessControlError,
    /// The token counter or a timestamp would leave its integer range.
    ArithmeticOverflow,
}

/// The registry error that an access-control failure becomes.
pub open spec fn contract_error_of_access(e: AccessControlError) -> ContractError {
    match e {
        AccessControlError::NotInitialized => ContractError::NotInitialized,
        _ => ContractError::NotAuthorized,
    }
}

impl From<AccessControlError> for ContractError {
    fn from(err: AccessControlError) -> (r: ContractError)
        ensures
            r == contract_error_of_access(err),
    {
        match err {
            AccessControlError::NotInitialized => ContractError::NotInitialized,
            AccessControlError::Unauthorized => ContractError::NotAuthorized,
            AccessControlError::AlreadyAuthorized => ContractError::NotAuthorized,
            AccessControlError::NotAuthorized => ContractError::NotAuthorized,
            AccessControlError::InvalidAddress => ContractError::NotAuthorized,
        }
    }
}

impl vstd::std_specs::convert::FromSpecImpl<AccessControlError> for ContractError {
    open spec fn obeys_from_spec() -> bool {
        true
    }

    open spec fn from_spec(v: AccessControlError) -> ContractError {
        contract_error_of_access(v)
    }
}

/// What a certificate records about its commitment.
#[derive(Clone, Debug)]
pub struct CommitmentMetadata {
    pub commitment_id: String,
    pub duration_days: u32,
    pub max_loss_percent: u32,
    pub commitment_type: String,
    pub created_at: u64,
    pub expires_at: u64,
    pub initial_amount: i128,
    pub asset_address: String,
}

/// A certificate representing ownership of a commitment.
#[derive(Clone, Debug)]
pub struct CommitmentNFT {
    pub owner: String,
    pub token_id: u32,
    pub metadata: CommitmentMetadata,
    pub is_active: bool,
    pub early_exit_penalty: u32,
}

impl CommitmentMetadata {
    /// A field-by-field copy that callers can reason about.
    pub fn duplicate(&self) -> (r: CommitmentMetadata)
        ensures
            r == *self,
    {
        CommitmentMetadata {
            commitment_id: self.commitment_id.clone(),
            duration_days: self.duration_days,
            max_loss_percent: self.max_loss_percent,
            commitment_type: self.commitment_type.clone(),
            created_at: self.created_at,
            expires_at: self.expires_at,
            initial_amount: self.initial_amount,
            asset_address: self.asset_address.clone(),
        }
    }
}

impl CommitmentNFT {
    /// A field-by-field copy that callers can reason about.
    pub fn duplicate(&self) -> (r: CommitmentNFT)
        ensures
            r == *self,
    {
        CommitmentNFT {
            owner: self.owner.clone(),
            token_id: self.token_id,
            metadata: self.metadata.duplicate(),
            is_active: self.is_active,
            early_exit_penalty: self.early_exit_penalty,
        }
    }
}

/// The certificates of `s` that `owner` holds, in token order.
pub open spec fn owned_by(s: Seq<CommitmentNFT>, owner: Seq<char>) -> Seq<CommitmentNFT>
    decreases s.len(),
{
    if s.len() == 0 {
        Seq::empty()
    } else if s.last().owner@ == owner {
        owned_by(s.drop_last(), owner).push(s.last())
    } else {
        owned_by(s.drop_last(), owner)
    }
}

proof fn lemma_owned_len(s: Seq<CommitmentNFT>, owner: Seq<char>)
    ensures
        owned_by(s, owner).len() <= s.len(),
    decreases s.len(),
{
    if s.len() > 0 {
        lemma_owned_len(s.drop_last(), owner);
    }
}

/// The certificate registry: mints one certificate per commitment, tracks its
/// owner, and marks it inactive once the commitment is settled.
#[derive(Debug)]
pub struct CommitmentNFTContract {
    pub access: AccessControl,
    pub core_contract: Option<String>,
    /// The number of certificates minted; the last token id handed out.
    pub token_counter: u32,
    /// The certificates, in token order: token id `t` is at position `t - 1`.
    pub nfts: Vec<CommitmentNFT>,
    pub emergency: bool,
}

impl CommitmentNFTContract {
    /// The registry's invariant.
    pub open spec fn wf(&self) -> bool {
        &&& self.access.wf()
        &&& self.token_counter == self.nfts@.len()
        &&& forall|i: int| 0 <= i < self.nfts@.len() ==> #[trigger] self.nfts@[i].token_id == i + 1
    }

    /// Whether a certificate carries `token_id`.
    pub open spec fn token_exists_spec(&self, token_id: u32) -> bool {
        1 <= token_id <= self.nfts@.len()
    }

    /// The certificate that carries `token_id`.
    pub open spec fn nft_of(&self, token_id: u32) -> CommitmentNFT {
        self.nfts@[token_id - 1]
    }

    /// The first check of `mint` that fails, if any.
    pub open spec fn mint_error(
        &self,
        caller: Seq<char>,
        duration_days: u32,
        max_loss_percent: u32,
        commitment_type: Seq<char>,
        initial_amount: i128,
        now: u64,
    ) -> Option<ContractError> {
        if self.access.authorized_error(caller).is_some() {
            Some(contract_error_of_access(self.access.authorized_error(caller).unwrap()))
        } else if duration_days == 0 {
            Some(ContractError::InvalidDuration)
        } else if max_loss_percent > 100 {
            Some(ContractError::InvalidMaxLoss)
        } else if !is_valid_commitment_type(commitment_type) {
            Some(ContractError::InvalidCommitmentType)
        } else if initial_amount <= 0 {
            Some(ContractError::InvalidAmount)
        } else if self.token_counter == u32::MAX {
            Some(ContractError::ArithmeticOverflow)
        } else if now + duration_days * SECONDS_PER_DAY > u64::MAX {
            Some(ContractError::ArithmeticOverflow)
        } else {
            None
        }
    }

    /// The error an admin-only operation reports for `caller`, if any.
    pub open spec fn admin_error(&self, caller: Seq<char>) -> Option<ContractError> {
        match self.access.admin_error(caller) {
            Some(e) => Some(contract_error_of_access(e)),
            None => None,
        }
    }

    /// An empty, uninitialized registry.
    pub fn new() -> (r: CommitmentNFTContract)
        ensures
            r.wf(),
            r.nfts@.len() == 0,
            r.access.admin.is_none(),
            r.core_contract.is_none(),
            !r.emergency,
    {
        CommitmentNFTContract {
            access: AccessControl::new(),
            core_contract: None,
            token_counter: 0,
            nfts: Vec::new(),
            emergency: false,
        }
    }

    /// Sets the admin, once.
    pub fn initialize(&mut self, admin: String) -> (r: Result<(), ContractError>)
        requires
            old(self).wf(),
        ensures
            final(self).wf(),
            old(self).access.admin.is_some() ==> r == Err::<(), ContractError>(
                ContractError::AlreadyInitialized,
            ) && *final(self) == *old(self),
            old(self).access.admin.is_none() ==> r.is_ok() && final(self).access.admin == Some(
                admin,
            ) && final(self).access.authorized == old(self).access.authorized && final(self).nfts
                == old(self).nfts && final(self).token_counter == old(self).token_counter,
    {
        if self.access.admin.is_some() {
            return Err(ContractError::AlreadyInitialized);
        }
        self.access.admin = Some(admin);
        Ok(())
    }

    fn check_admin(&self, caller: &String) -> (r: Result<(), ContractError>)
        ensures
            match self.admin_error(caller@) {
                Some(e) => r == Err::<(), ContractError>(e),
                None => r.is_ok(),
            },
    {
        match self.access.require_admin(caller) {
            Ok(()) => Ok(()),
            Err(e) => Err(ContractError::from(e)),
        }
    }

    /// Whitelists a contract that may mint (admin only).
    pub fn add_authorized_contract(&mut self, caller: &String, contract_address: String) -> (r:
        Result<(), ContractError>)
        requires
            old(self).wf(),
        ensures
            final(self).wf(),
            final(self).nfts == old(self).nfts,
            match old(self).admin_error(caller@) {
                Some(e) => r == Err::<(), ContractError>(e) && *final(self) == *old(self),
                None => if old(self).access.authorized_view().contains(contract_address@) {
                    r == Err::<(), ContractError>(ContractError::NotAuthorized) && *final(self)
                        == *old(self)
                } else {
                    r.is_ok() && final(self).access.authorized@ == old(
                        self,
                    ).access.authorized@.push(contract_address)
                },
            },
    {
        match self.access.add_authorized_contract(caller, contract_address) {
            Ok(()) => Ok(()),
            Err(e) => Err(ContractError::from(e)),
        }
    }

    /// Lets `minter` mint (admin only). Adding a minter twice changes nothing.
    pub fn add_authorized_minter(&mut self, caller: &String, minter: String) -> (r: Result<
        (),
        ContractError,
    >)
        requires
            old(self).wf(),
        ensures
            final(self).wf(),
            final(self).nfts == old(self).nfts,
            match old(self).admin_error(caller@) {
                Some(e) => r == Err::<(), ContractError>(e) && *final(self) == *old(self),
                None => r.is_ok() && final(self).access.is_authorized_spec(minter@),
            },
    {
        self.check_admin(caller)?;
        if self.access.is_authorized(&minter) {
            return Ok(());
        }
        let ghost m = minter@;
        match self.access.add_authorized_contract(caller, minter) {
            Ok(()) => {
                proof {
                    let k = self.access.authorized@.len() - 1;
                    assert(self.access.authorized_view()[k] == m);
                }
                Ok(())
            },
            Err(e) => Err(ContractError::from(e)),
        }
    }

    /// Removes a contract from the whitelist (admin only).
    pub fn remove_authorized_contract(&mut self, caller: &String, contract_address: &String) -> (r:
        Result<(), ContractError>)
        requires
            old(self).wf(),
        ensures
            final(self).wf(),
            final(self).nfts == old(self).nfts,
            match old(self).admin_error(caller@) {
                Some(e) => r == Err::<(), ContractError>(e) && *final(self) == *old(self),
                None => if old(self).access.authorized_view().contains(contract_address@) {
                    r.is_ok() && !final(self).access.authorized_view().contains(
                        contract_address@,
                    )
                } else {
                    r == Err::<(), ContractError>(ContractError::NotAuthorized) && *final(self)
                        == *old(self)
                },
            },
    {
        match self.access.remove_authorized_contract(caller, contract_address) {
            Ok(()) => Ok(()),
            Err(e) => Err(ContractError::from(e)),
        }
    }

    /// Whether `contract_address` is the admin or a whitelisted contract.
    pub fn is_authorized(&self, contract_address: &String) -> (r: bool)
        ensures
            r == self.access.is_authorized_spec(contract_address@),
    {
        self.access.is_authorized(contract_address)
    }

    /// Hands the admin role over (admin only).
    pub fn update_admin(&mut self, caller: &String, new_admin: String) -> (r: Result<
        (),
        ContractError,
    >)
        requires
            old(self).wf(),
        ensures
            final(self).wf(),
            final(self).nfts == old(self).nfts,
            match old(self).admin_error(caller@) {
                Some(e) => r == Err::<(), ContractError>(e) && *final(self) == *old(self),
                None => r.is_ok() && final(self).access.admin == Some(new_admin),
            },
    {
        match self.access.update_admin(caller, new_admin) {
            Ok(()) => Ok(()),
            Err(e) => Err(ContractError::from(e)),
        }
    }

    /// The admin's address.
    pub fn get_admin(&self) -> (r: Result<String, ContractError>)
        ensures
            match self.access.admin {
                Some(a) => r == Ok::<String, ContractError>(a),
                None => r == Err::<String, ContractError>(ContractError::NotInitialized),
            },
    {
        match self.access.get_admin() {
            Ok(a) => Ok(a),
            Err(e) => Err(ContractError::from(e)),
        }
    }

    /// Records the ledger contract allowed to settle certificates (admin only).
    pub fn set_core_contract(&mut self, caller: &String, core_contract: String) -> (r: Result<
        (),
        ContractError,
    >)
        requires
            old(self).wf(),
        ensures
            final(self).wf(),
            match old(self).admin_error(caller@) {
                Some(e) => r == Err::<(), ContractError>(e) && *final(self) == *old(self),
                None => r.is_ok() && final(self).core_contract == Some(core_contract)
                    && final(self).access == old(self).access && final(self).nfts == old(
                    self,
                ).nfts && final(self).token_counter == old(self).token_counter,
            },
    {
        self.check_admin(caller)?;
        self.core_contract = Some(core_contract);
        Ok(())
    }

    /// The ledger contract allowed to settle certificates.
    pub fn get_core_contract(&self) -> (r: Result<String, ContractError>)
        ensures
            match self.core_contract {
                Some(a) => r == Ok::<String, ContractError>(a),
                None => r == Err::<String, ContractError>(ContractError::NotInitialized),
            },
    {
        match &self.core_contract {
            Some(a) => Ok(a.clone()),
            None => Err(ContractError::NotInitialized),
        }
    }

    /// Mints the certificate of a new commitment for `owner` (admin or whitelisted
    /// callers only) and returns its token id, one above the previous one.
    pub fn mint(
        &mut self,
        caller: &String,
        owner: String,
        commitment_id: String,
        duration_days: u32,
        max_loss_percent: u32,
        commitment_type: String,
        initial_amount: i128,
        asset_address: String,
        now: u64,
    ) -> (r: Result<u32, ContractError>)
        requires
            old(self).wf(),
        ensures
            final(self).wf(),
            match old(self).mint_error(
                caller@,
                duration_days,
                max_loss_percent,
                commitment_type@,
                initial_amount,
                now,
            ) {
                Some(e) => r == Err::<u32, ContractError>(e) && *final(self) == *old(self),
                None => {
                    let t = (old(self).token_counter + 1) as u32;
                    let n = final(self).nft_of(t);
                    &&& r == Ok::<u32, ContractError>(t)
                    &&& final(self).nfts@.len() == old(self).nfts@.len() + 1
                    &&& final(self).nfts@.drop_last() == old(self).nfts@
                    &&& n.owner == owner
                    &&& n.token_id == t
                    &&& n.is_active
                    &&& n.early_exit_penalty == 0
                    &&& n.metadata.commitment_id == commitment_id
                    &&& n.metadata.duration_days == duration_days
                    &&& n.metadata.max_loss_percent == max_loss_percent
                    &&& n.metadata.commitment_type == commitment_type
                    &&& n.metadata.created_at == now
                    &&& n.metadata.expires_at == now + duration_days * SECONDS_PER_DAY
                    &&& n.metadata.initial_amount == initial_amount
                    &&& n.metadata.asset_address == asset_address
                    &&& final(self).access == old(self).access
                    &&& final(self).core_contract == old(self).core_contract
                    &&& final(self).emergency == old(self).emergency
                },
            },
    {
        match self.access.require_authorized(caller) {
            Ok(()) => {},
            Err(e) => {
                return Err(ContractError::from(e));
            },
        }
        if duration_days == 0 {
            return Err(ContractError::InvalidDuration);
        }
        if max_loss_percent > 100 {
            return Err(ContractError::InvalidMaxLoss);
        }
        if !is_valid_type(&commitment_type) {
            return Err(ContractError::InvalidCommitmentType);
        }
        if initial_amount <= 0 {
            return Err(ContractError::InvalidAmount);
        }
        if self.token_counter == u32::MAX {
            return Err(ContractError::ArithmeticOverflow);
        }
        let expires_at = match now.checked_add(duration_days as u64 * SECONDS_PER_DAY) {
            Some(t) => t,
            None => {
                return Err(ContractError::ArithmeticOverflow);
            },
        };
        let token_id = self.token_counter + 1;
        let metadata = CommitmentMetadata {
            commitment_id,
            duration_days,
            max_loss_percent,
            commitment_type,
            created_at: now,
            expires_at,
            initial_amount,
            asset_address,
        };
        let nft = CommitmentNFT { owner, token_id, metadata, is_active: true, early_exit_penalty: 0 };
        let ghost before = self.nfts@;
        self.nfts.push(nft);
        self.token_counter = token_id;
        proof {
            assert(self.nfts@.drop_last() =~= before);
            assert forall|i: int| 0 <= i < self.nfts@.len() implies #[trigger] self.nfts@[i].token_id
                == i + 1 by {
                if i < before.len() {
                    assert(self.nfts@[i] == before[i]);
                }
            }
        }
        Ok(token_id)
    }

    /// The certificate carrying `token_id`.
    pub fn get_metadata(&self, token_id: u32) -> (r: Result<CommitmentNFT, ContractError>)
        requires
            self.wf(),
        ensures
            self.token_exists_spec(token_id) ==> r == Ok::<CommitmentNFT, ContractError>(
                self.nft_of(token_id),
            ),
            !self.token_exists_spec(token_id) ==> r == Err::<CommitmentNFT, ContractError>(
                ContractError::TokenNotFound,
            ),
    {
        if token_id == 0 || token_id as usize > self.nfts.len() {
            return Err(ContractError::TokenNotFound);
        }
        Ok(self.nfts[token_id as usize - 1].duplicate())
    }

    /// The owner of the certificate carrying `token_id`.
    pub fn owner_of(&self, token_id: u32) -> (r: Result<String, ContractError>)
        requires
            self.wf(),
        ensures
            self.token_exists_spec(token_id) ==> r == Ok::<String, ContractError>(
                self.nft_of(token_id).owner,
            ),
            !self.token_exists_spec(token_id) ==> r == Err::<String, ContractError>(
                ContractError::TokenNotFound,
            ),
    {
        if token_id == 0 || token_id as usize > self.nfts.len() {
            return Err(ContractError::TokenNotFound);
        }
        Ok(self.nfts[token_id as usize - 1].owner.clone())
    }

    /// Whether the certificate carrying `token_id` is still active.
    pub fn is_active(&self, token_id: u32) -> (r: Result<bool, ContractError>)
        requires
            self.wf(),
        ensures
            self.token_exists_spec(token_id) ==> r == Ok::<bool, ContractError>(
                self.nft_of(token_id).is_active,
            ),
            !self.token_exists_spec(token_id) ==> r == Err::<bool, ContractError>(
                ContractError::TokenNotFound,
            ),
    {
        if token_id == 0 || token_id as usize > self.nfts.len() {
            return Err(ContractError::TokenNotFound);
        }
        Ok(self.nfts[token_id as usize - 1].is_active)
    }

    /// Whether a certificate carries `token_id`.
    pub fn token_exists(&self, token_id: u32) -> (r: bool)
        requires
            self.wf(),
        ensures
            r == self.token_exists_spec(token_id),
    {
        token_id != 0 && token_id as usize <= self.nfts.len()
    }

    /// The number of certificates minted.
    pub fn total_supply(&self) -> (r: u32)
        requires
            self.wf(),
        ensures
            r == self.nfts@.len(),
    {
        self.token_counter
    }

    /// Every certificate, in token order.
    pub fn get_all_metadata(&self) -> (r: Vec<CommitmentNFT>)
        ensures
            r@ == self.nfts@,
    {
        let mut out: Vec<CommitmentNFT> = Vec::new();
        let mut i: usize = 0;
        while i < self.nfts.len()
            invariant
                i <= self.nfts@.len(),
                out@ == self.nfts@.take(i as int),
            decreases self.nfts@.len() - i,
        {
            out.push(self.nfts[i].duplicate());
            i += 1;
            proof {
                assert(out@ =~= self.nfts@.take(i as int));
            }
        }
        proof {
            assert(self.nfts@.take(i as int) =~= self.nfts@);
        }
        out
    }

    /// The certificates `owner` holds, in token order.
    pub fn get_nfts_by_owner(&self, owner: &String) -> (r: Vec<CommitmentNFT>)
        ensures
            r@ == owned_by(self.nfts@, owner@),
    {
        let mut out: Vec<CommitmentNFT> = Vec::new();
        let mut i: usize = 0;
        while i < self.nfts.len()
            invariant
                i <= self.nfts@.len(),
                out@ == owned_by(self.nfts@.take(i as int), owner@),
            decreases self.nfts@.len() - i,
        {
            proof {
                assert(self.nfts@.take(i + 1).drop_last() =~= self.nfts@.take(i as int));
            }
            if self.nfts[i].owner == *owner {
                out.push(self.nfts[i].duplicate());
            }
            i += 1;
        }
        proof {
            assert(self.nfts@.take(i as int) =~= self.nfts@);
        }
        out
    }

    /// The number of certificates `owner` holds.
    pub fn balance_of(&self, owner: &String) -> (r: u32)
        requires
            self.wf(),
        ensures
            r == owned_by(self.nfts@, owner@).len(),
    {
        let mut count: u32 = 0;
        let mut i: usize = 0;
        while i < self.nfts.len()
            invariant
                self.wf(),
                i <= self.nfts@.len(),
                count == owned_by(self.nfts@.take(i as int), owner@).len(),
            decreases self.nfts@.len() - i,
        {
            proof {
                assert(self.nfts@.take(i + 1).drop_last() =~= self.nfts@.take(i as int));
                lemma_owned_len(self.nfts@.take(i as int), owner@);
            }
            if self.nfts[i].owner == *owner {
                count = count + 1;
            }
            i += 1;
        }
        proof {
            assert(self.nfts@.take(i as int) =~= self.nfts@);
        }
        count
    }

    /// Hands the certificate carrying `token_id` from `from` to `to`.
    pub fn transfer(&mut self, from: &String, to: String, token_id: u32) -> (r: Result<
        (),
        ContractError,
    >)
        requires
            old(self).wf(),
        ensures
            final(self).wf(),
            !old(self).token_exists_spec(token_id) ==> r == Err::<(), ContractError>(
                ContractError::TokenNotFound,
            ) && *final(self) == *old(self),
            old(self).token_exists_spec(token_id) ==> {
                let n = old(self).nft_of(token_id);
                if n.owner@ != from@ {
                    r == Err::<(), ContractError>(ContractError::NotOwner) && *final(self)
                        == *old(self)
                } else {
                    &&& r.is_ok()
                    &&& final(self).nfts@ == old(self).nfts@.update(
                        token_id - 1,
                        CommitmentNFT { owner: to, ..n },
                    )
                    &&& final(self).access == old(self).access
                    &&& final(self).token_counter == old(self).token_counter
                }
            },
    {
        if token_id == 0 || token_id as usize > self.nfts.len() {
            return Err(ContractError::TokenNotFound);
        }
        let index = token_id as usize - 1;
        if self.nfts[index].owner != *from {
            return Err(ContractError::NotOwner);
        }
        let mut nft = self.nfts[index].duplicate();
        nft.owner = to;
        self.nfts.set(index, nft);
        Ok(())
    }

    /// Marks the certificate carrying `token_id` inactive once its commitment
    /// has expired.
    pub fn settle(&mut self, token_id: u32, now: u64) -> (r: Result<(), ContractError>)
        requires
            old(self).wf(),
        ensures
            final(self).wf(),
            !old(self).token_exists_spec(token_id) ==> r == Err::<(), ContractError>(
                ContractError::TokenNotFound,
            ) && *final(self) == *old(self),
            old(self).token_exists_spec(token_id) ==> {
                let n = old(self).nft_of(token_id);
                if !n.is_active {
                    r == Err::<(), ContractError>(ContractError::AlreadySettled) && *final(self)
                        == *old(self)
                } else if now < n.metadata.expires_at {
                    r == Err::<(), ContractError>(ContractError::NotExpired) && *final(self)
                        == *old(self)
                } else {
                    &&& r.is_ok()
                    &&& final(self).nfts@ == old(self).nfts@.update(
                        token_id - 1,
                        CommitmentNFT { is_active: false, ..n },
                    )
                    &&& final(self).access == old(self).access
                    &&& final(self).token_counter == old(self).token_counter
                }
            },
    {
        if token_id == 0 || token_id as usize > self.nfts.len() {
            return Err(ContractError::TokenNotFound);
        }
        let index = token_id as usize - 1;
        if !self.nfts[index].is_active {
            return Err(ContractError::AlreadySettled);
        }
        if now < self.nfts[index].metadata.expires_at {
            return Err(ContractError::NotExpired);
        }
        let mut nft = self.nfts[index].duplicate();
        nft.is_active = false;
        self.nfts.set(index, nft);
        Ok(())
    }

    /// Whether the commitment behind the certificate carrying `token_id` has
    /// expired at `now`.
    pub fn is_expired(&self, token_id: u32, now: u64) -> (r: Result<bool, ContractError>)
        requires
            self.wf(),
        ensures
            self.token_exists_spec(token_id) ==> r == Ok::<bool, ContractError>(
                now >= self.nft_of(token_id).metadata.expires_at,
            ),
            !self.token_exists_spec(token_id) ==> r == Err::<bool, ContractError>(
                ContractError::TokenNotFound,
            ),
    {
        if token_id == 0 || token_id as usize > self.nfts.len() {
            return Err(ContractError::TokenNotFound);
        }
        Ok(now >= self.nfts[token_id as usize - 1].metadata.expires_at)
    }

    /// Turns emergency mode on or off (admin only).
    pub fn set_emergency_mode(&mut self, caller: &String, enabled: bool) -> (r: Result<
        (),
        ContractError,
    >)
        requires
            old(self).wf(),
        ensures
            final(self).wf(),
            match old(self).admin_error(caller@) {
                Some(e) => r == Err::<(), ContractError>(e) && *final(self) == *old(self),
                None => r.is_ok() && final(self).emergency == enabled && final(self).access == old(
                    self,
                ).access && final(self).nfts == old(self).nfts && final(self).token_counter == old(
                    self,
                ).token_counter && final(self).core_contract == old(self).core_contract,
            },
    {
        self.check_admin(caller)?;
        self.emergency = enabled;
        Ok(())
    }
}

} // verus!
