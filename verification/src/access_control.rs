//! Role checks of the contract: one admin, a set of verifiers, and identity
//! owners. A refused check names the role it asked for; the caller publishes
//! the matching `access_denied` event and aborts with the error's message.

use vstd::prelude::*;
use soroban_sdk::{Env, Symbol};
use crate::account::AccountId;
use crate::sdk::{symbol_new, symbol_text};
use crate::symbols::is_valid_symbol;

verus! {

/// The role a check asks for.
#[derive(Clone, Copy, Debug, PartialEq, Eq, Structural)]
pub enum Role {
    Admin,
    Verifier,
    IdentityOwner,
    AdminOrVerifier,
}

impl Role {
    /// The role's name as it appears in `access_denied` events.
    pub open spec fn role_name(self) -> Seq<char> {
        match self {
            Role::Admin => "admin"@,
            Role::Verifier => "verifier"@,
            Role::IdentityOwner => "identity_owner"@,
            Role::AdminOrVerifier => "admin_or_verifier"@,
        }
    }

    /// The error code that `access_denied` events carry for the role.
    pub open spec fn role_code(self) -> u32 {
        match self {
            Role::Admin => 1,
            Role::Verifier => 2,
            Role::IdentityOwner => 3,
            Role::AdminOrVerifier => 2,
        }
    }

    /// The role's name.
    pub fn name(&self) -> (s: &'static str)
        ensures
            s@ == self.role_name(),
    {
        match self {
            Role::Admin => "admin",
            Role::Verifier => "verifier",
            Role::IdentityOwner => "identity_owner",
            Role::AdminOrVerifier => "admin_or_verifier",
        }
    }

    /// The role's error code.
    pub fn code(&self) -> (c: u32)
        ensures
            c == self.role_code(),
    {
        match self {
            Role::Admin => 1,
            Role::Verifier => 2,
            Role::IdentityOwner => 3,
            Role::AdminOrVerifier => 2,
        }
    }

    /// The host symbol of the role's name, made in `env`. Never panics: every
    /// role name is a valid symbol (`lemma_role_name_is_symbol`).
    pub fn symbol(&self, env: &Env) -> (sym: Symbol)
        ensures
            symbol_text(sym) == self.role_name(),
    {
        let text = self.name();
        proof {
            lemma_role_name_is_symbol(*self);
        }
        symbol_new(env, text)
    }
}

/// Every role name is text that the host accepts as a symbol.
pub proof fn lemma_role_name_is_symbol(role: Role)
    ensures
        is_valid_symbol(role.role_name()),
{
    reveal_strlit("admin");
    reveal_strlit("verifier");
    reveal_strlit("identity_owner");
    reveal_strlit("admin_or_verifier");
}

/// Why a check failed.
#[derive(Clone, Copy, Debug, PartialEq, Eq, Structural)]
pub enum AccessError {
    /// No admin has been set.
    NotInitialized,
    /// The caller does not hold the role.
    Unauthorized(Role),
}

impl AccessError {
    /// The message the contract aborts with.
    pub open spec fn error_message(self) -> Seq<char> {
        match self {
            AccessError::NotInitialized => "not initialized"@,
            AccessError::Unauthorized(Role::Admin) => "not admin"@,
            AccessError::Unauthorized(Role::Verifier) => "not verifier"@,
            AccessError::Unauthorized(Role::IdentityOwner) => "not identity owner"@,
            AccessError::Unauthorized(Role::AdminOrVerifier) => "not authorized"@,
        }
    }

    /// The message the contract aborts with.
    pub fn message(&self) -> (s: &'static str)
        ensures
            s@ == self.error_message(),
    {
        match self {
            AccessError::NotInitialized => "not initialized",
            AccessError::Unauthorized(Role::Admin) => "not admin",
            AccessError::Unauthorized(Role::Verifier) => "not verifier",
            AccessError::Unauthorized(Role::IdentityOwner) => "not identity owner",
            AccessError::Unauthorized(Role::AdminOrVerifier) => "not authorized",
        }
    }
}

/// The roles held: the admin, if one is set, and the verifiers.
pub struct RoleView {
    pub admin: Option<Seq<char>>,
    pub verifiers: Set<Seq<char>>,
}

/// The contract's role assignments.
pub struct RoleStore {
    admin: Option<AccountId>,
    verifiers: Vec<AccountId>,
}

impl RoleStore {
    /// Whether `id` is among the stored verifiers.
    pub closed spec fn lists(self, id: Seq<char>) -> bool {
        exists|i: int| 0 <= i < self.verifiers.len() && (#[trigger] self.verifiers[i])@ == id
    }

    pub closed spec fn admin_view(self) -> Option<Seq<char>> {
        match self.admin {
            Some(a) => Some(a@),
            None => None,
        }
    }
}

impl View for RoleStore {
    type V = RoleView;

    open spec fn view(&self) -> RoleView {
        RoleView {
            admin: self.admin_view(),
            verifiers: Set::new(|id: Seq<char>| self.lists(id)),
        }
    }
}

/// Whether `id` is the admin.
pub open spec fn spec_is_admin(v: RoleView, id: Seq<char>) -> bool {
    v.admin == Some(id)
}

/// Whether `id` is a verifier.
pub open spec fn spec_is_verifier(v: RoleView, id: Seq<char>) -> bool {
    v.verifiers.contains(id)
}

/// The admin check: refused as not initialized when no admin is set, and as
/// unauthorized when `caller` is not the admin.
pub open spec fn spec_require_admin(v: RoleView, caller: Seq<char>) -> Result<(), AccessError> {
    match v.admin {
        None => Err(AccessError::NotInitialized),
        Some(a) => if a == caller {
            Ok(())
        } else {
            Err(AccessError::Unauthorized(Role::Admin))
        },
    }
}

/// The verifier check.
pub open spec fn spec_require_verifier(v: RoleView, caller: Seq<char>) -> Result<(), AccessError> {
    if spec_is_verifier(v, caller) {
        Ok(())
    } else {
        Err(AccessError::Unauthorized(Role::Verifier))
    }
}

/// The identity-owner check: the caller must be the expected identity.
pub open spec fn spec_require_identity_owner(caller: Seq<char>, expected: Seq<char>) -> Result<
    (),
    AccessError,
> {
    if caller == expected {
        Ok(())
    } else {
        Err(AccessError::Unauthorized(Role::IdentityOwner))
    }
}

/// The admin-or-verifier check.
pub open spec fn spec_require_admin_or_verifier(v: RoleView, caller: Seq<char>) -> Result<
    (),
    AccessError,
> {
    if spec_is_admin(v, caller) || spec_is_verifier(v, caller) {
        Ok(())
    } else {
        Err(AccessError::Unauthorized(Role::AdminOrVerifier))
    }
}

/// The roles after `admin` grants the verifier role to `verifier`, and the
/// outcome: the grant needs the admin check to pass and changes nothing otherwise.
pub open spec fn spec_add_verifier(v: RoleView, admin: Seq<char>, verifier: Seq<char>) -> (
    RoleView,
    Result<(), AccessError>,
) {
    match spec_require_admin(v, admin) {
        Ok(_) => (RoleView { admin: v.admin, verifiers: v.verifiers.insert(verifier) }, Ok(())),
        Err(e) => (v, Err(e)),
    }
}

/// The roles after `admin` takes the verifier role from `verifier`, and the
/// outcome: the revocation needs the admin check to pass and changes nothing
/// otherwise.
pub open spec fn spec_remove_verifier(v: RoleView, admin: Seq<char>, verifier: Seq<char>) -> (
    RoleView,
    Result<(), AccessError>,
) {
    match spec_require_admin(v, admin) {
        Ok(_) => (RoleView { admin: v.admin, verifiers: v.verifiers.remove(verifier) }, Ok(())),
        Err(e) => (v, Err(e)),
    }
}

impl RoleStore {
    /// No admin and no verifiers.
    pub fn new() -> (s: RoleStore)
        ensures
            s@.admin == None::<Seq<char>>,
            s@.verifiers == Set::<Seq<char>>::empty(),
    {
        let s = RoleStore { admin: None, verifiers: Vec::new() };
        assert(s@.verifiers =~= Set::<Seq<char>>::empty());
        s
    }

    /// Makes `admin` the admin; the verifiers stay.
    pub fn set_admin(&mut self, admin: AccountId)
        ensures
            final(self)@.admin == Some(admin@),
            final(self)@.verifiers == old(self)@.verifiers,
    {
        let ghost before = *self;
        self.admin = Some(admin);
        assert(self.verifiers == before.verifiers);
        assert forall|x: Seq<char>| self.lists(x) == before.lists(x) by {}
        assert(self@.verifiers =~= before@.verifiers);
    }

    /// The admin, if one is set.
    pub fn admin(&self) -> (a: Option<&AccountId>)
        ensures
            match a {
                Some(id) => self@.admin == Some(id@),
                None => self@.admin == None::<Seq<char>>,
            },
    {
        match &self.admin {
            Some(id) => Some(id),
            None => None,
        }
    }

    /// The accounts that hold the verifier role, each listed at least once.
    pub fn verifier_ids(&self) -> (v: &Vec<AccountId>)
        ensures
            forall|x: Seq<char>| lists_id(v@, x) <==> self@.verifiers.contains(x),
    {
        assert forall|x: Seq<char>| lists_id(self.verifiers@, x) <==> self.lists(x) by {
            if lists_id(self.verifiers@, x) {
                let j = choose|j: int| 0 <= j < self.verifiers@.len() && (#[trigger] self.verifiers@[j])@ == x;
                assert(self.verifiers[j]@ == x);
            }
            if self.lists(x) {
                let j = choose|j: int| 0 <= j < self.verifiers.len() && (#[trigger] self.verifiers[j])@ == x;
                assert(self.verifiers@[j]@ == x);
            }
        }
        &self.verifiers
    }

    /// Whether `id` holds the verifier role.
    pub fn has_verifier(&self, id: &AccountId) -> (b: bool)
        ensures
            b == self@.verifiers.contains(id@),
    {
        let mut i: usize = 0;
        while i < self.verifiers.len()
            invariant
                i <= self.verifiers.len(),
                forall|j: int| 0 <= j < i ==> (#[trigger] self.verifiers[j])@ != id@,
            decreases self.verifiers.len() - i,
        {
            if self.verifiers[i].same_as(id) {
                assert(self.lists(id@));
                return true;
            }
            i = i + 1;
        }
        false
    }

    /// Grants the verifier role to `id`.
    pub fn insert_verifier(&mut self, id: AccountId)
        ensures
            final(self)@.admin == old(self)@.admin,
            final(self)@.verifiers == old(self)@.verifiers.insert(id@),
    {
        if !self.has_verifier(&id) {
            let ghost before = *self;
            let ghost key = id@;
            self.verifiers.push(id);
            assert forall|x: Seq<char>| self.lists(x) <==> before.lists(x) || x == key by {
                if self.lists(x) {
                    let i = choose|i: int| 0 <= i < self.verifiers.len() && (#[trigger] self.verifiers[i])@ == x;
                    if i < before.verifiers.len() {
                        assert(before.verifiers[i] == self.verifiers[i]);
                    }
                }
                if before.lists(x) {
                    let i = choose|i: int| 0 <= i < before.verifiers.len() && (#[trigger] before.verifiers[i])@ == x;
                    assert(self.verifiers[i] == before.verifiers[i]);
                }
                if x == key {
                    assert(self.verifiers[self.verifiers.len() - 1]@ == key);
                }
            }
        }
        assert(self@.verifiers =~= old(self)@.verifiers.insert(id@));
    }

    /// Takes the verifier role from `id`.
    pub fn remove_verifier_entry(&mut self, id: &AccountId)
        ensures
            final(self)@.admin == old(self)@.admin,
            final(self)@.verifiers == old(self)@.verifiers.remove(id@),
    {
        let mut kept: Vec<AccountId> = Vec::new();
        let mut i: usize = 0;
        while i < self.verifiers.len()
            invariant
                i <= self.verifiers.len(),
                forall|x: Seq<char>|
                    #[trigger] lists_id(kept@, x) <==> (x != id@ && lists_id(
                        self.verifiers@.subrange(0, i as int),
                        x,
                    )),
            decreases self.verifiers.len() - i,
        {
            let ghost old_kept = kept@;
            let ghost old_prefix = self.verifiers@.subrange(0, i as int);
            if !self.verifiers[i].same_as(id) {
                kept.push(self.verifiers[i].duplicate());
            }
            let ghost prefix = self.verifiers@.subrange(0, i + 1);
            assert forall|x: Seq<char>|
                #[trigger] lists_id(kept@, x) <==> (x != id@ && lists_id(prefix, x)) by {
                if lists_id(kept@, x) {
                    let k = choose|k: int| 0 <= k < kept@.len() && (#[trigger] kept@[k])@ == x;
                    if k < old_kept.len() {
                        assert(old_kept[k] == kept@[k]);
                        assert(lists_id(old_kept, x));
                        let j = choose|j: int| 0 <= j < old_prefix.len() && (#[trigger] old_prefix[j])@ == x;
                        assert(prefix[j] == old_prefix[j]);
                    } else {
                        assert(prefix[i as int] == self.verifiers@[i as int]);
                    }
                }
                if x != id@ && lists_id(prefix, x) {
                    let j = choose|j: int| 0 <= j < prefix.len() && (#[trigger] prefix[j])@ == x;
                    if j < i {
                        assert(old_prefix[j] == prefix[j]);
                        assert(lists_id(old_prefix, x));
                        assert(lists_id(old_kept, x));
                        let k = choose|k: int| 0 <= k < old_kept.len() && (#[trigger] old_kept[k])@ == x;
                        assert(kept@[k] == old_kept[k]);
                    } else {
                        assert(kept@[kept@.len() - 1]@ == x);
                    }
                }
            }
            i = i + 1;
        }
        assert(self.verifiers@.subrange(0, self.verifiers@.len() as int) =~= self.verifiers@);
        let ghost before = self.verifiers@;
        proof {
            assert forall|x: Seq<char>| self.lists(x) <==> lists_id(before, x) by {
                if self.lists(x) {
                    let j = choose|j: int| 0 <= j < self.verifiers.len() && (#[trigger] self.verifiers[j])@ == x;
                    assert(before[j]@ == x);
                }
                if lists_id(before, x) {
                    let j = choose|j: int| 0 <= j < before.len() && (#[trigger] before[j])@ == x;
                    assert(self.verifiers[j]@ == x);
                }
            }
        }
        self.verifiers = kept;
        assert forall|x: Seq<char>| self.lists(x) <==> lists_id(self.verifiers@, x) by {
            if lists_id(self.verifiers@, x) {
                let j = choose|j: int| 0 <= j < self.verifiers@.len() && (#[trigger] self.verifiers@[j])@ == x;
                assert(self.verifiers[j]@ == x);
            }
            if self.lists(x) {
                let j = choose|j: int| 0 <= j < self.verifiers.len() && (#[trigger] self.verifiers[j])@ == x;
                assert(self.verifiers@[j]@ == x);
            }
        }
        assert(self@.verifiers =~= old(self)@.verifiers.remove(id@));
    }
}

/// Whether one of the identities in `s` is `x`.
pub open spec fn lists_id(s: Seq<AccountId>, x: Seq<char>) -> bool {
    exists|k: int| 0 <= k < s.len() && (#[trigger] s[k])@ == x
}

/// The admin. Refused as not initialized when no admin is set.
pub fn get_admin(store: &RoleStore) -> (r: Result<AccountId, AccessError>)
    ensures
        match store@.admin {
            Some(a) => r is Ok && r->Ok_0@ == a,
            None => r == Err::<AccountId, AccessError>(AccessError::NotInitialized),
        },
{
    match store.admin() {
        Some(a) => Ok(a.duplicate()),
        None => Err(AccessError::NotInitialized),
    }
}

/// Whether `address` is the admin; false when no admin is set.
pub fn is_admin(store: &RoleStore, address: &AccountId) -> (b: bool)
    ensures
        b == spec_is_admin(store@, address@),
{
    match store.admin() {
        Some(a) => a.same_as(address),
        None => false,
    }
}

/// Whether `address` holds the verifier role.
pub fn is_verifier(store: &RoleStore, address: &AccountId) -> (b: bool)
    ensures
        b == spec_is_verifier(store@, address@),
{
    store.has_verifier(address)
}

/// Lets through the admin only.
pub fn require_admin(store: &RoleStore, caller: &AccountId) -> (r: Result<(), AccessError>)
    ensures
        r == spec_require_admin(store@, caller@),
{
    match store.admin() {
        None => Err(AccessError::NotInitialized),
        Some(a) => if a.same_as(caller) {
            Ok(())
        } else {
            Err(AccessError::Unauthorized(Role::Admin))
        },
    }
}

/// Lets through verifiers only.
pub fn require_verifier(store: &RoleStore, caller: &AccountId) -> (r: Result<(), AccessError>)
    ensures
        r == spec_require_verifier(store@, caller@),
{
    if store.has_verifier(caller) {
        Ok(())
    } else {
        Err(AccessError::Unauthorized(Role::Verifier))
    }
}

/// Lets through the expected identity only.
pub fn require_identity_owner(caller: &AccountId, expected: &AccountId) -> (r: Result<
    (),
    AccessError,
>)
    ensures
        r == spec_require_identity_owner(caller@, expected@),
{
    if caller.same_as(expected) {
        Ok(())
    } else {
        Err(AccessError::Unauthorized(Role::IdentityOwner))
    }
}

/// Lets through the admin and verifiers.
pub fn require_admin_or_verifier(store: &RoleStore, caller: &AccountId) -> (r: Result<
    (),
    AccessError,
>)
    ensures
        r == spec_require_admin_or_verifier(store@, caller@),
{
    if is_admin(store, caller) || is_verifier(store, caller) {
        Ok(())
    } else {
        Err(AccessError::Unauthorized(Role::AdminOrVerifier))
    }
}

/// `admin` grants the verifier role to `verifier`.
pub fn add_verifier_role(store: &mut RoleStore, admin: &AccountId, verifier: &AccountId) -> (r:
    Result<(), AccessError>)
    ensures
        (final(store)@, r) == spec_add_verifier(old(store)@, admin@, verifier@),
{
    match require_admin(store, admin) {
        Ok(()) => {
            store.insert_verifier(verifier.duplicate());
            Ok(())
        },
        Err(e) => Err(e),
    }
}

/// `admin` takes the verifier role from `verifier`.
pub fn remove_verifier_role(store: &mut RoleStore, admin: &AccountId, verifier: &AccountId) -> (r:
    Result<(), AccessError>)
    ensures
        (final(store)@, r) == spec_remove_verifier(old(store)@, admin@, verifier@),
{
    match require_admin(store, admin) {
        Ok(()) => {
            store.remove_verifier_entry(verifier);
            Ok(())
        },
        Err(e) => Err(e),
    }
}

/// A granted verifier passes the verifier check and the admin-or-verifier
/// check right after the grant.
pub proof fn law_grant_then_check(v: RoleView, admin: Seq<char>, verifier: Seq<char>)
    requires
        spec_require_admin(v, admin) is Ok,
    ensures
        spec_add_verifier(v, admin, verifier).1 is Ok,
        spec_is_verifier(spec_add_verifier(v, admin, verifier).0, verifier),
        spec_require_verifier(spec_add_verifier(v, admin, verifier).0, verifier) is Ok,
        spec_require_admin_or_verifier(spec_add_verifier(v, admin, verifier).0, verifier) is Ok,
{
}

/// A revoked verifier fails the verifier check right after the revocation.
pub proof fn law_revoke_then_check(v: RoleView, admin: Seq<char>, verifier: Seq<char>)
    requires
        spec_require_admin(v, admin) is Ok,
    ensures
        spec_remove_verifier(v, admin, verifier).1 is Ok,
        !spec_is_verifier(spec_remove_verifier(v, admin, verifier).0, verifier),
        spec_require_verifier(spec_remove_verifier(v, admin, verifier).0, verifier) == Err::<
            (),
            AccessError,
        >(AccessError::Unauthorized(Role::Verifier)),
{
}

/// Granting or revoking the verifier role of one account leaves the admin and
/// every other account's role as they were.
pub proof fn law_role_changes_are_local(
    v: RoleView,
    admin: Seq<char>,
    verifier: Seq<char>,
    other: Seq<char>,
)
    requires
        other != verifier,
    ensures
        spec_add_verifier(v, admin, verifier).0.admin == v.admin,
        spec_remove_verifier(v, admin, verifier).0.admin == v.admin,
        spec_is_verifier(spec_add_verifier(v, admin, verifier).0, other) == spec_is_verifier(
            v,
            other,
        ),
        spec_is_verifier(spec_remove_verifier(v, admin, verifier).0, other) == spec_is_verifier(
            v,
            other,
        ),
{
}

/// A grant or revocation by anyone but the admin is refused with the admin
/// check's error and changes no role.
pub proof fn law_refused_change_keeps_roles(v: RoleView, admin: Seq<char>, verifier: Seq<char>)
    requires
        spec_require_admin(v, admin) is Err,
    ensures
        spec_add_verifier(v, admin, verifier) == (v, spec_require_admin(v, admin)),
        spec_remove_verifier(v, admin, verifier) == (v, spec_require_admin(v, admin)),
        v.admin is None ==> spec_require_admin(v, admin) == Err::<(), AccessError>(
            AccessError::NotInitialized,
        ),
        v.admin is Some ==> spec_require_admin(v, admin) == Err::<(), AccessError>(
            AccessError::Unauthorized(Role::Admin),
        ),
{
}

/// Revoking a verifier role that the admin has just granted to an account
/// that did not hold it gives back the roles as they were.
pub proof fn law_grant_then_revoke_restores(v: RoleView, admin: Seq<char>, verifier: Seq<char>)
    requires
        spec_require_admin(v, admin) is Ok,
        !spec_is_verifier(v, verifier),
    ensures
        spec_remove_verifier(spec_add_verifier(v, admin, verifier).0, admin, verifier) == (
            v,
            Ok::<(), AccessError>(()),
        ),
{
    let after = spec_add_verifier(v, admin, verifier).0;
    assert(after.verifiers.remove(verifier) =~= v.verifiers);
}

/// Once `admin` is stored as the admin, it passes the admin check and the
/// admin-or-verifier check, and every other account fails the admin check
/// as unauthorized.
pub proof fn law_stored_admin_passes(
    verifiers: Set<Seq<char>>,
    admin: Seq<char>,
    other: Seq<char>,
)
    requires
        other != admin,
    ensures
        spec_is_admin(RoleView { admin: Some(admin), verifiers }, admin),
        spec_require_admin(RoleView { admin: Some(admin), verifiers }, admin) is Ok,
        spec_require_admin_or_verifier(RoleView { admin: Some(admin), verifiers }, admin) is Ok,
        spec_require_admin(RoleView { admin: Some(admin), verifiers }, other) == Err::<
            (),
            AccessError,
        >(AccessError::Unauthorized(Role::Admin)),
{
}

/// The admin check passes exactly for the admin, and everyone who passes the
/// admin check or the verifier check passes the admin-or-verifier check.
pub proof fn law_checks_agree(v: RoleView, caller: Seq<char>)
    ensures
        spec_require_admin(v, caller) is Ok <==> spec_is_admin(v, caller),
        spec_require_verifier(v, caller) is Ok <==> spec_is_verifier(v, caller),
        spec_require_admin_or_verifier(v, caller) is Ok <==> (spec_require_admin(v, caller) is Ok
            || spec_require_verifier(v, caller) is Ok),
{
}

/// Every refusal can be reported: the refused role's name is a valid host
/// symbol, its code is 1, 2 or 3, and the only refusal that names no role is
/// the admin check on a contract without an admin.
pub proof fn law_refusals_are_reportable(v: RoleView, caller: Seq<char>, role: Role)
    ensures
        is_valid_symbol(role.role_name()),
        1 <= role.role_code() <= 3,
        spec_require_admin(v, caller) == Err::<(), AccessError>(AccessError::NotInitialized)
            <==> v.admin is None,
        spec_require_verifier(v, caller) is Err ==> spec_require_verifier(v, caller) == Err::<
            (),
            AccessError,
        >(AccessError::Unauthorized(Role::Verifier)),
        spec_require_admin_or_verifier(v, caller) is Err ==> spec_require_admin_or_verifier(
            v,
            caller,
        ) == Err::<(), AccessError>(AccessError::Unauthorized(Role::AdminOrVerifier)),
{
    lemma_role_name_is_symbol(role);
}

/// The identity-owner check lets every account act as itself, whatever its
/// strkey, and refuses every other caller as not the identity owner.
pub proof fn law_identity_owner(caller: Seq<char>, expected: Seq<char>)
    ensures
        spec_require_identity_owner(expected, expected) == Ok::<(), AccessError>(()),
        caller != expected ==> spec_require_identity_owner(caller, expected) == Err::<
            (),
            AccessError,
        >(AccessError::Unauthorized(Role::IdentityOwner)),
        spec_require_identity_owner(caller, expected) is Ok <==> caller == expected,
{
}

} // verus!
