//! The authorization rules of the management endpoints.
//!
//! Every rule is stated over `Permission::grants`, the one primitive by which a
//! capability is checked. An endpoint asks the rule and acts on its answer; it
//! compares no flag itself.

use vstd::prelude::*;
use crate::permission::{Capability, Permission, PermissionError};

verus! {

/// Which redirects a principal may list.
#[derive(Clone, Copy, Debug, PartialEq, Eq, Structural)]
pub enum ResourceScope {
    /// Every redirect.
    All,
    /// The redirects that the principal owns.
    Owned,
    /// None: the request is refused.
    Denied,
}

/// Which principals a principal may list.
#[derive(Clone, Copy, Debug, PartialEq, Eq, Structural)]
pub enum PrincipalScope {
    /// Every principal.
    All,
    /// Every principal without the administrator flag.
    BelowAdministrator,
    /// None: the request is refused.
    Denied,
}

/// By what a redirect is looked up that a principal wants to edit or delete.
#[derive(Clone, Copy, Debug, PartialEq, Eq, Structural)]
pub enum SearchScope {
    /// By its name alone.
    ByName,
    /// By its name among the redirects that the principal owns.
    ByNameAndOwner,
    /// Not at all: the request is refused.
    Denied,
}

/// The redirects that `actor` may list.
pub open spec fn resource_scope_of(actor: Permission) -> ResourceScope {
    if actor.grants(Capability::List) {
        ResourceScope::All
    } else if actor.grants(Capability::Own) {
        ResourceScope::Owned
    } else {
        ResourceScope::Denied
    }
}

/// The principals that `actor` may list.
pub open spec fn principal_scope_of(actor: Permission) -> PrincipalScope {
    if actor.grants(Capability::Admin) {
        PrincipalScope::All
    } else if actor.grants(Capability::Manage) {
        PrincipalScope::BelowAdministrator
    } else {
        PrincipalScope::Denied
    }
}

/// How `actor` looks up a redirect to change it.
pub open spec fn search_scope_of(actor: Permission) -> SearchScope {
    if actor.grants(Capability::Moderate) {
        SearchScope::ByName
    } else if actor.grants(Capability::Own) {
        SearchScope::ByNameAndOwner
    } else {
        SearchScope::Denied
    }
}

/// Whether `actor` may create, change or delete a principal with `subject`'s
/// permissions: an administrator always, a manager only below managers.
pub open spec fn outranks(actor: Permission, subject: Permission) -> bool {
    actor.grants(Capability::Admin) || (actor.grants(Capability::Manage) && !subject.grants(
        Capability::Manage,
    ))
}

/// Whether `actor` may ask for a change of a principal that, if `wanted` is
/// given, assigns these permissions.
pub open spec fn may_request_change(actor: Permission, wanted: Option<Permission>) -> bool {
    actor.grants(Capability::Admin) || (actor.grants(Capability::Manage) && match wanted {
        Some(w) => !w.grants(Capability::Manage),
        None => true,
    })
}

/// The permissions that a request asks for: none where it names none.
pub open spec fn requested(raw: Option<u8>) -> Result<Permission, PermissionError> {
    match raw {
        None => Ok(Permission::empty()),
        Some(mask) => Permission::unmasked(mask),
    }
}

/// The redirects that `actor` may list.
pub fn resource_scope(actor: &Permission) -> (scope: ResourceScope)
    ensures
        scope == resource_scope_of(*actor),
{
    if actor.can_list() {
        ResourceScope::All
    } else if actor.can_own() {
        ResourceScope::Owned
    } else {
        ResourceScope::Denied
    }
}

/// The principals that `actor` may list.
pub fn principal_scope(actor: &Permission) -> (scope: PrincipalScope)
    ensures
        scope == principal_scope_of(*actor),
{
    if actor.can_admin() {
        PrincipalScope::All
    } else if actor.can_manage() {
        PrincipalScope::BelowAdministrator
    } else {
        PrincipalScope::Denied
    }
}

/// How `actor` looks up a redirect that it wants to edit or delete.
pub fn search_scope(actor: &Permission) -> (scope: SearchScope)
    ensures
        scope == search_scope_of(*actor),
{
    if actor.can_mod() {
        SearchScope::ByName
    } else if actor.can_own() {
        SearchScope::ByNameAndOwner
    } else {
        SearchScope::Denied
    }
}

/// Whether `actor` may create a redirect under a name of its choice.
pub fn may_create_redirect(actor: &Permission) -> (allowed: bool)
    ensures
        allowed == actor.grants(Capability::Own),
{
    actor.can_own()
}

/// Whether `actor` may create a redirect under a random name.
pub fn may_create_random(actor: &Permission) -> (allowed: bool)
    ensures
        allowed == actor.grants(Capability::Random),
{
    actor.can_random()
}

/// Whether `actor` may create or delete a principal with `subject`'s
/// permissions, or change one that has them.
pub fn may_govern(actor: &Permission, subject: &Permission) -> (allowed: bool)
    ensures
        allowed == outranks(*actor, *subject),
{
    actor.can_admin() || (actor.can_manage() && !subject.can_manage())
}

/// Whether `actor` may ask for a change of a principal. `wanted` holds the
/// permissions that the change assigns, if it assigns any.
pub fn may_change_principal(actor: &Permission, wanted: Option<Permission>) -> (allowed: bool)
    ensures
        allowed == may_request_change(*actor, wanted),
        wanted matches Some(w) ==> allowed == outranks(*actor, w),
{
    if actor.can_admin() {
        return true;
    }
    if !actor.can_manage() {
        return false;
    }
    match wanted {
        Some(w) => !w.can_manage(),
        None => true,
    }
}

/// Reads the permissions that a request asks for from its integer form; a
/// request that names none asks for none.
pub fn requested_permission(raw: Option<u8>) -> (r: Result<Permission, PermissionError>)
    ensures
        r == requested(raw),
        r is Err <==> (raw matches Some(mask) && mask >= crate::permission::MASK_LIMIT),
{
    match raw {
        None => Ok(Permission::none()),
        Some(mask) => Permission::from_u8(mask),
    }
}

/// An administrator may list, look up and govern everything.
pub proof fn law_administrator_passes_every_rule(actor: Permission, subject: Permission)
    requires
        actor@[0],
    ensures
        resource_scope_of(actor) == ResourceScope::All,
        principal_scope_of(actor) == PrincipalScope::All,
        search_scope_of(actor) == SearchScope::ByName,
        outranks(actor, subject),
        forall|wanted: Option<Permission>| may_request_change(actor, wanted),
{
}

/// A principal without capabilities is refused by every rule.
pub proof fn law_empty_vector_is_refused(subject: Permission, wanted: Option<Permission>)
    ensures
        resource_scope_of(Permission::empty()) == ResourceScope::Denied,
        principal_scope_of(Permission::empty()) == PrincipalScope::Denied,
        search_scope_of(Permission::empty()) == SearchScope::Denied,
        !outranks(Permission::empty(), subject),
        !may_request_change(Permission::empty(), wanted),
{
}

/// Nobody but an administrator governs a manager or an administrator, and
/// nobody without the manager's capability governs anyone.
pub proof fn law_managers_are_governed_by_administrators(actor: Permission, subject: Permission)
    requires
        outranks(actor, subject),
    ensures
        actor.grants(Capability::Manage),
        subject.grants(Capability::Manage) ==> actor@[0],
        subject@[0] ==> actor@[0],
{
}

} // verus!
