//! The access-control harness contract: one entry point per role check and
//! role change, over the contract's stored roles.

use vstd::prelude::*;
use crate::access_control::{
    add_verifier_role, get_admin, is_admin, is_verifier, remove_verifier_role, require_admin,
    require_admin_or_verifier, require_identity_owner, require_verifier, spec_add_verifier,
    spec_is_admin, spec_is_verifier, spec_remove_verifier, spec_require_admin,
    spec_require_admin_or_verifier, spec_require_identity_owner, spec_require_verifier,
    AccessError, RoleStore,
};
use crate::account::AccountId;

verus! {

/// The harness contract. Each entry point takes the contract's stored roles
/// in place of the host environment the contract reads them from.
pub struct AccessControlHarness;

impl AccessControlHarness {
    /// Stores `admin` as the admin.
    pub fn initialize(store: &mut RoleStore, admin: AccountId)
        ensures
            final(store)@.admin == Some(admin@),
            final(store)@.verifiers == old(store)@.verifiers,
    {
        store.set_admin(admin);
    }

    /// The admin check.
    pub fn require_admin_only(store: &RoleStore, caller: &AccountId) -> (r: Result<(), AccessError>)
        ensures
            r == spec_require_admin(store@, caller@),
    {
        require_admin(store, caller)
    }

    /// The verifier check.
    pub fn require_verifier_only(store: &RoleStore, caller: &AccountId) -> (r: Result<(), AccessError>)
        ensures
            r == spec_require_verifier(store@, caller@),
    {
        require_verifier(store, caller)
    }

    /// The identity-owner check; the stored roles play no part in it.
    pub fn require_identity_owner_only(
        store: &RoleStore,
        caller: &AccountId,
        expected: &AccountId,
    ) -> (r: Result<(), AccessError>)
        ensures
            r == spec_require_identity_owner(caller@, expected@),
    {
        require_identity_owner(caller, expected)
    }

    /// The admin-or-verifier check.
    pub fn require_admin_or_verifier_only(store: &RoleStore, caller: &AccountId) -> (r: Result<
        (),
        AccessError,
    >)
        ensures
            r == spec_require_admin_or_verifier(store@, caller@),
    {
        require_admin_or_verifier(store, caller)
    }

    /// `admin` grants the verifier role to `verifier`.
    pub fn add_verifier(store: &mut RoleStore, admin: &AccountId, verifier: &AccountId) -> (r: Result<
        (),
        AccessError,
    >)
        ensures
            (final(store)@, r) == spec_add_verifier(old(store)@, admin@, verifier@),
    {
        add_verifier_role(store, admin, verifier)
    }

    /// `admin` takes the verifier role from `verifier`.
    pub fn remove_verifier(store: &mut RoleStore, admin: &AccountId, verifier: &AccountId) -> (r:
        Result<(), AccessError>)
        ensures
            (final(store)@, r) == spec_remove_verifier(old(store)@, admin@, verifier@),
    {
        remove_verifier_role(store, admin, verifier)
    }

    /// Whether `address` holds the verifier role.
    pub fn is_verifier_role(store: &RoleStore, address: &AccountId) -> (b: bool)
        ensures
            b == spec_is_verifier(store@, address@),
    {
        is_verifier(store, address)
    }

    /// Whether `address` is the admin.
    pub fn is_admin_role(store: &RoleStore, address: &AccountId) -> (b: bool)
        ensures
            b == spec_is_admin(store@, address@),
    {
        is_admin(store, address)
    }

    /// The admin; refused as not initialized when none is set.
    pub fn current_admin(store: &RoleStore) -> (r: Result<AccountId, AccessError>)
        ensures
            match store@.admin {
                Some(a) => r is Ok && r->Ok_0@ == a,
                None => r == Err::<AccountId, AccessError>(AccessError::NotInitialized),
            },
    {
        get_admin(store)
    }
}

} // verus!
