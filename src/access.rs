use vstd::prelude::*;

use crate::error::AccessControlError;

verus! {

/// An admin and a whitelist of authorized callers.
#[derive(Debug)]
pub struct AccessControl {
    pub admin: Option<String>,
    pub authorized: Vec<String>,
}

/// The addresses of a list of strings.
pub open spec fn views_of(v: Seq<String>) -> Seq<Seq<char>> {
    v.map_values(|s: String| s@)
}

impl AccessControl {
    /// The admin's address, if one is set.
    pub open spec fn admin_view(&self) -> Option<Seq<char>> {
        match self.admin {
            Some(a) => Some(a@),
            None => None,
        }
    }

    /// The whitelisted addresses, in the order they were added.
    pub open spec fn authorized_view(&self) -> Seq<Seq<char>> {
        views_of(self.authorized@)
    }

    /// The admin is always authorized; so is every whitelisted address.
    pub open spec fn is_authorized_spec(&self, addr: Seq<char>) -> bool {
        self.admin_view() == Some(addr) || self.authorized_view().contains(addr)
    }

    /// Whether `caller` is the admin.
    pub open spec fn is_admin_spec(&self, caller: Seq<char>) -> bool {
        self.admin_view() == Some(caller)
    }

    /// The error an admin-only operation reports for `caller`, if any.
    pub open spec fn admin_error(&self, caller: Seq<char>) -> Option<AccessControlError> {
        if self.admin.is_none() {
            Some(AccessControlError::NotInitialized)
        } else if !self.is_admin_spec(caller) {
            Some(AccessControlError::Unauthorized)
        } else {
            None
        }
    }

    /// The error `require_authorized` reports for `caller`, if any.
    pub open spec fn authorized_error(&self, caller: Seq<char>) -> Option<AccessControlError> {
        if self.admin.is_none() {
            Some(AccessControlError::NotInitialized)
        } else if !self.is_authorized_spec(caller) {
            Some(AccessControlError::Unauthorized)
        } else {
            None
        }
    }

    /// No address is whitelisted twice.
    pub open spec fn wf(&self) -> bool {
        self.authorized_view().no_duplicates()
    }

    pub fn new() -> (r: AccessControl)
        ensures
            r.admin.is_none(),
            r.authorized@.len() == 0,
            r.wf(),
    {
        AccessControl { admin: None, authorized: Vec::new() }
    }

    fn position(&self, addr: &String) -> (r: Option<usize>)
        ensures
            match r {
                Some(i) => i < self.authorized@.len() && self.authorized_view()[i as int]
                    == addr@,
                None => !self.authorized_view().contains(addr@),
            },
    {
        let mut i: usize = 0;
        while i < self.authorized.len()
            invariant
                i <= self.authorized@.len(),
                forall|j: int| 0 <= j < i ==> self.authorized_view()[j] != addr@,
            decreases self.authorized@.len() - i,
        {
            if self.authorized[i] == *addr {
                return Some(i);
            }
            i += 1;
        }
        None
    }

    pub fn is_authorized(&self, addr: &String) -> (r: bool)
        ensures
            r == self.is_authorized_spec(addr@),
    {
        let is_admin = match &self.admin {
            Some(a) => *a == *addr,
            None => false,
        };
        is_admin || self.position(addr).is_some()
    }

    fn is_admin(&self, caller: &String) -> (r: bool)
        ensures
            r == self.is_admin_spec(caller@),
    {
        match &self.admin {
            Some(a) => *a == *caller,
            None => false,
        }
    }

    /// Succeeds when `caller` is the admin or a whitelisted address.
    pub fn require_authorized(&self, caller: &String) -> (r: Result<(), AccessControlError>)
        ensures
            match self.authorized_error(caller@) {
                Some(e) => r == Err::<(), AccessControlError>(e),
                None => r.is_ok(),
            },
    {
        if self.admin.is_none() {
            return Err(AccessControlError::NotInitialized);
        }
        if !self.is_authorized(caller) {
            return Err(AccessControlError::Unauthorized);
        }
        Ok(())
    }

    /// Succeeds when `caller` is the admin.
    pub fn require_admin(&self, caller: &String) -> (r: Result<(), AccessControlError>)
        ensures
            match self.admin_error(caller@) {
                Some(e) => r == Err::<(), AccessControlError>(e),
                None => r.is_ok(),
            },
    {
        if self.admin.is_none() {
            return Err(AccessControlError::NotInitialized);
        }
        if !self.is_admin(caller) {
            return Err(AccessControlError::Unauthorized);
        }
        Ok(())
    }

    /// Whitelists `addr` (admin only).
    pub fn add_authorized_contract(&mut self, caller: &String, addr: String) -> (r: Result<
        (),
        AccessControlError,
    >)
        requires
            old(self).wf(),
        ensures
            final(self).wf(),
            final(self).admin == old(self).admin,
            match old(self).admin_error(caller@) {
                Some(e) => r == Err::<(), AccessControlError>(e) && *final(self) == *old(self),
                None => if old(self).authorized_view().contains(addr@) {
                    r == Err::<(), AccessControlError>(AccessControlError::AlreadyAuthorized)
                        && *final(self) == *old(self)
                } else {
                    r.is_ok() && final(self).authorized@ == old(self).authorized@.push(addr)
                },
            },
    {
        self.require_admin(caller)?;
        if self.position(&addr).is_some() {
            return Err(AccessControlError::AlreadyAuthorized);
        }
        let ghost before = self.authorized_view();
        self.authorized.push(addr);
        proof {
            assert(self.authorized_view() =~= before.push(addr@));
        }
        Ok(())
    }

    /// Removes `addr` from the whitelist (admin only).
    pub fn remove_authorized_contract(&mut self, caller: &String, addr: &String) -> (r: Result<
        (),
        AccessControlError,
    >)
        requires
            old(self).wf(),
        ensures
            final(self).wf(),
            final(self).admin == old(self).admin,
            match old(self).admin_error(caller@) {
                Some(e) => r == Err::<(), AccessControlError>(e) && *final(self) == *old(self),
                None => if old(self).authorized_view().contains(addr@) {
                    r.is_ok() && !final(self).authorized_view().contains(addr@) && forall|
                        a: Seq<char>,
                    |
                        a != addr@ ==> (final(self).authorized_view().contains(a)
                            <==> old(self).authorized_view().contains(a))
                } else {
                    r == Err::<(), AccessControlError>(AccessControlError::NotAuthorized)
                        && *final(self) == *old(self)
                },
            },
    {
        self.require_admin(caller)?;
        match self.position(addr) {
            None => Err(AccessControlError::NotAuthorized),
            Some(i) => {
                let ghost before = self.authorized_view();
                self.authorized.remove(i);
                proof {
                    assert(self.authorized_view() =~= before.remove(i as int));
                    assert forall|a: Seq<char>| a != addr@ implies (self.authorized_view().contains(
                        a,
                    ) <==> before.contains(a)) by {
                        if before.contains(a) {
                            let k = choose|k: int| 0 <= k < before.len() && before[k] == a;
                            if k < i {
                                assert(self.authorized_view()[k] == a);
                            } else {
                                assert(self.authorized_view()[k - 1] == a);
                            }
                        }
                    }
                    if self.authorized_view().contains(addr@) {
                        let k = choose|k: int|
                            0 <= k < self.authorized_view().len() && self.authorized_view()[k]
                                == addr@;
                        if k < i {
                            assert(before[k] == addr@);
                        } else {
                            assert(before[k + 1] == addr@);
                        }
                    }
                }
                Ok(())
            },
        }
    }

    /// Hands the admin role to `new_admin` (admin only).
    pub fn update_admin(&mut self, caller: &String, new_admin: String) -> (r: Result<
        (),
        AccessControlError,
    >)
        requires
            old(self).wf(),
        ensures
            final(self).wf(),
            final(self).authorized == old(self).authorized,
            match old(self).admin_error(caller@) {
                Some(e) => r == Err::<(), AccessControlError>(e) && *final(self) == *old(self),
                None => r.is_ok() && final(self).admin == Some(new_admin),
            },
    {
        self.require_admin(caller)?;
        self.admin = Some(new_admin);
        Ok(())
    }

    /// The admin's address.
    pub fn get_admin(&self) -> (r: Result<String, AccessControlError>)
        ensures
            match self.admin {
                Some(a) => r == Ok::<String, AccessControlError>(a),
                None => r == Err::<String, AccessControlError>(
                    AccessControlError::NotInitialized,
                ),
            },
    {
        match &self.admin {
            Some(a) => Ok(a.clone()),
            None => Err(AccessControlError::NotInitialized),
        }
    }
}

} // verus!
