use vstd::prelude::*;

use crate::error::{error_of_access, AccessControlError, Error};
use crate::ledger::CommitmentCoreContract;

verus! {

/// The ledger error for the outcome of an access-control check.
fn map_access(r: Result<(), AccessControlError>) -> (out: Result<(), Error>)
    ensures
        match r {
            Ok(_) => out.is_ok(),
            Err(e) => out == Err::<(), Error>(error_of_access(e)),
        },
{
    match r {
        Ok(()) => Ok(()),
        Err(e) => Err(Error::from(e)),
    }
}

impl CommitmentCoreContract {
    /// `post` differs from `self` in its access control alone.
    pub open spec fn same_but_access(&self, post: &Self) -> bool {
        &&& post.nft_contract == self.nft_contract
        &&& post.commitments == self.commitments
        &&& post.total_commitments == self.total_commitments
        &&& post.total_value_locked == self.total_value_locked
        &&& post.guard == self.guard
        &&& post.in_flight == self.in_flight
        &&& post.emergency == self.emergency
        &&& post.supported_assets == self.supported_assets
    }

    /// Whitelists an allocator (admin only).
    pub fn add_authorized_allocator(&mut self, caller: &String, allocator_address: String) -> (r:
        Result<(), Error>)
        requires
            old(self).wf(),
        ensures
            final(self).wf(),
            old(self).same_but_access(&*final(self)),
            final(self).access.admin == old(self).access.admin,
            match old(self).access.admin_error(caller@) {
                Some(e) => r == Err::<(), Error>(error_of_access(e)) && *final(self) == *old(self),
                None => if old(self).access.authorized_view().contains(allocator_address@) {
                    r == Err::<(), Error>(Error::Unauthorized) && *final(self) == *old(self)
                } else {
                    r.is_ok() && final(self).access.authorized@ == old(
                        self,
                    ).access.authorized@.push(allocator_address)
                },
            },
    {
        let res = self.access.add_authorized_contract(caller, allocator_address);
        map_access(res)
    }

    /// Removes an allocator from the whitelist (admin only).
    pub fn remove_authorized_allocator(&mut self, caller: &String, allocator_address: &String) -> (r:
        Result<(), Error>)
        requires
            old(self).wf(),
        ensures
            final(self).wf(),
            old(self).same_but_access(&*final(self)),
            final(self).access.admin == old(self).access.admin,
            match old(self).access.admin_error(caller@) {
                Some(e) => r == Err::<(), Error>(error_of_access(e)) && *final(self) == *old(self),
                None => if old(self).access.authorized_view().contains(allocator_address@) {
                    r.is_ok() && !final(self).access.authorized_view().contains(
                        allocator_address@,
                    )
                } else {
                    r == Err::<(), Error>(Error::Unauthorized) && *final(self) == *old(self)
                },
            },
    {
        let res = self.access.remove_authorized_contract(caller, allocator_address);
        map_access(res)
    }

    /// Whether `contract_address` is the admin or a whitelisted allocator.
    pub fn is_authorized_allocator(&self, contract_address: &String) -> (r: bool)
        ensures
            r == self.access.is_authorized_spec(contract_address@),
    {
        self.access.is_authorized(contract_address)
    }

    /// Hands the admin role over (admin only).
    pub fn update_admin(&mut self, caller: &String, new_admin: String) -> (r: Result<(), Error>)
        requires
            old(self).wf(),
        ensures
            final(self).wf(),
            old(self).same_but_access(&*final(self)),
            final(self).access.authorized == old(self).access.authorized,
            match old(self).access.admin_error(caller@) {
                Some(e) => r == Err::<(), Error>(error_of_access(e)) && *final(self) == *old(self),
                None => r.is_ok() && final(self).access.admin == Some(new_admin),
            },
    {
        let res = self.access.update_admin(caller, new_admin);
        map_access(res)
    }

    /// The admin's address.
    pub fn get_admin(&self) -> (r: Result<String, Error>)
        ensures
            match self.access.admin {
                Some(a) => r == Ok::<String, Error>(a),
                None => r == Err::<String, Error>(Error::NotInitialized),
            },
    {
        match self.access.get_admin() {
            Ok(a) => Ok(a),
            Err(e) => Err(Error::from(e)),
        }
    }

    /// Turns emergency mode on or off (admin only). While it is on, no
    /// commitment is created or settled.
    pub fn set_emergency_mode(&mut self, caller: &String, enabled: bool) -> (r: Result<(), Error>)
        requires
            old(self).wf(),
        ensures
            final(self).wf(),
            match old(self).access.admin_error(caller@) {
                Some(e) => r == Err::<(), Error>(error_of_access(e)) && *final(self) == *old(self),
                None => r.is_ok() && *final(self) == (CommitmentCoreContract {
                    emergency: enabled,
                    ..*old(self)
                }),
            },
    {
        let res = map_access(self.access.require_admin(caller));
        if res.is_ok() {
            self.emergency = enabled;
        }
        res
    }

    /// Adds an asset to the whitelist (admin only). Once the whitelist holds an
    /// asset, only whitelisted assets can be committed.
    pub fn add_supported_asset(&mut self, caller: &String, asset: String) -> (r: Result<(), Error>)
        requires
            old(self).wf(),
        ensures
            final(self).wf(),
            match old(self).access.admin_error(caller@) {
                Some(e) => r == Err::<(), Error>(error_of_access(e)) && *final(self) == *old(self),
                None => r.is_ok() && final(self).supported_assets@ == old(
                    self,
                ).supported_assets@.push(asset) && final(self).access == old(self).access
                    && final(self).commitments == old(self).commitments
                    && final(self).total_value_locked == old(self).total_value_locked
                    && final(self).guard == old(self).guard && final(self).emergency == old(
                    self,
                ).emergency,
            },
    {
        let res = map_access(self.access.require_admin(caller));
        if res.is_ok() {
            self.supported_assets.push(asset);
        }
        res
    }
}

} // verus!
