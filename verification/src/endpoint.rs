//! The decisions of the management endpoints.
//!
//! An endpoint authenticates its caller, checks what the request asks for, asks
//! the store, and answers. What it checks, and in which order, is decided here;
//! the program around it asks the store and hands the answers in.

use vstd::prelude::*;
use crate::permission::{Capability, Permission};
use crate::policy::{
    may_change_principal, may_govern, may_request_change, outranks, principal_scope,
    principal_scope_of, requested, requested_permission, resource_scope, resource_scope_of,
    search_scope, search_scope_of, PrincipalScope, ResourceScope, SearchScope,
};
use crate::redirect::{
    accepted, accepts, regex_outcome, target_allowed, target_pattern, NameLookup, NameSearch,
    NameSearchView,
};
use crate::reply::{could_not_text, exist_text, missing_param_text, Notice, Reply};

verus! {

/// A parameter of a request.
#[derive(Clone, Copy, Debug, PartialEq, Eq, Structural)]
pub enum Param {
    Name,
    Domain,
    Password,
}

impl Param {
    /// The parameter's name in a request.
    pub open spec fn text(self) -> Seq<char> {
        match self {
            Param::Name => "name"@,
            Param::Domain => "domain"@,
            Param::Password => "password"@,
        }
    }

    /// The parameter's name in a request.
    pub fn name(&self) -> (text: &'static str)
        ensures
            text@ == self.text(),
    {
        match self {
            Param::Name => "name",
            Param::Domain => "domain",
            Param::Password => "password",
        }
    }
}

/// Why an endpoint does not do what was asked.
#[derive(Clone, Copy, Debug, PartialEq, Eq, Structural)]
pub enum Refusal {
    /// The request lacks a parameter.
    Missing(Param),
    /// The target of the redirect has not the form of an address.
    BadTargetFormat,
    /// The permissions asked for do not fit the schema.
    BadPermission,
    /// The caller may not do this.
    PermissionsTooLow,
    /// The store failed.
    Database,
    /// A redirect has the name already.
    RedirectExists,
    /// A redirect has the new name already.
    NewRedirectNameExists,
    /// No redirect has the name.
    RedirectMissing,
    /// No redirect was found to delete.
    NotFound,
    /// No free random name was found.
    NoRandomName,
    /// A principal has the name already.
    PrincipalExists,
    /// A principal has the new name already.
    NewPrincipalNameExists,
    /// No principal has the name.
    PrincipalMissing,
    /// The secret could not be hashed.
    HashFailed,
}

impl Refusal {
    /// The text of the refusal.
    pub open spec fn text(self) -> Seq<char> {
        match self {
            Refusal::Missing(param) => missing_param_text(param.text()),
            Refusal::BadTargetFormat => Notice::BadTargetFormat.text(),
            Refusal::BadPermission => "Sent permission doesn't fit the schema."@,
            Refusal::PermissionsTooLow => Notice::PermissionsTooLow.text(),
            Refusal::Database => Notice::DatabaseFind.text(),
            Refusal::RedirectExists => exist_text("Redirect"@, "already"@),
            Refusal::NewRedirectNameExists => exist_text("Domain with the new name"@, "already"@),
            Refusal::RedirectMissing => exist_text("Redirect"@, "doesn't"@),
            Refusal::NotFound => could_not_text("find"@, "redirect"@),
            Refusal::NoRandomName => could_not_text("create"@, "random redirect"@),
            Refusal::PrincipalExists => exist_text("Auth with that name"@, "already"@),
            Refusal::NewPrincipalNameExists => exist_text("Auth with the new name"@, "already"@),
            Refusal::PrincipalMissing => exist_text("Auth"@, "doesn't"@),
            Refusal::HashFailed => could_not_text("encrypt"@, "password"@),
        }
    }

    /// The refusal as a reply.
    pub fn reply(&self) -> (r: Reply)
        ensures
            !r.success,
            r.text@ == self.text(),
    {
        match self {
            Refusal::Missing(param) => Reply::missing_param(param.name()),
            Refusal::BadTargetFormat => Notice::BadTargetFormat.reply(),
            Refusal::BadPermission => Reply::new(false, "Sent permission doesn't fit the schema."),
            Refusal::PermissionsTooLow => Notice::PermissionsTooLow.reply(),
            Refusal::Database => Notice::DatabaseFind.reply(),
            Refusal::RedirectExists => Reply::exist("Redirect", "already"),
            Refusal::NewRedirectNameExists => Reply::exist("Domain with the new name", "already"),
            Refusal::RedirectMissing => Reply::exist("Redirect", "doesn't"),
            Refusal::NotFound => Reply::could_not("find", "redirect"),
            Refusal::NoRandomName => Reply::could_not("create", "random redirect"),
            Refusal::PrincipalExists => Reply::exist("Auth with that name", "already"),
            Refusal::NewPrincipalNameExists => Reply::exist("Auth with the new name", "already"),
            Refusal::PrincipalMissing => Reply::exist("Auth", "doesn't"),
            Refusal::HashFailed => Reply::could_not("encrypt", "password"),
        }
    }
}

/// What the store answered to the question for a principal's permissions.
#[derive(Clone, Copy, Debug, PartialEq, Eq, Structural)]
pub enum Fetch {
    /// The permissions of the principal stored under the name.
    Found(Permission),
    /// No principal has the name.
    Absent,
    /// The store failed.
    Unavailable,
}

/// Whether a target was given and, if so, what the match against the pattern
/// of targets gave.
pub open spec fn target_match(target: Option<Seq<char>>) -> Option<Option<bool>> {
    match target {
        Some(t) => Some(regex_outcome(target_pattern(), t)),
        None => None,
    }
}

/// The characters of a string, if there is one.
pub open spec fn chars(s: Option<String>) -> Option<Seq<char>> {
    match s {
        Some(t) => Some(t@),
        None => None,
    }
}

/// What is checked of a request for a redirect under a random name: a target
/// is given, it has the form of an address, and the caller may draw names.
pub open spec fn random_redirect_check(actor: Permission, matched: Option<Option<bool>>) -> Result<
    (),
    Refusal,
> {
    match matched {
        None => Err(Refusal::Missing(Param::Domain)),
        Some(outcome) => if !accepts(outcome) {
            Err(Refusal::BadTargetFormat)
        } else if !actor.grants(Capability::Random) {
            Err(Refusal::PermissionsTooLow)
        } else {
            Ok(())
        },
    }
}

/// What is checked of a request for a redirect under a chosen name: a name and
/// a target are given, the target has the form of an address, and the caller may
/// own redirects.
pub open spec fn create_redirect_check(
    actor: Permission,
    named: bool,
    matched: Option<Option<bool>>,
) -> Result<(), Refusal> {
    if !named {
        Err(Refusal::Missing(Param::Name))
    } else {
        match matched {
            None => Err(Refusal::Missing(Param::Domain)),
            Some(outcome) => if !accepts(outcome) {
                Err(Refusal::BadTargetFormat)
            } else if !actor.grants(Capability::Own) {
                Err(Refusal::PermissionsTooLow)
            } else {
                Ok(())
            },
        }
    }
}

/// What is checked of a request to change a redirect: a name is given, a new
/// target, if there is one, has the form of an address, and the caller may look
/// the redirect up.
pub open spec fn edit_redirect_check(
    actor: Permission,
    named: bool,
    matched: Option<Option<bool>>,
) -> Result<SearchScope, Refusal> {
    if !named {
        Err(Refusal::Missing(Param::Name))
    } else if matched matches Some(outcome) && !accepts(outcome) {
        Err(Refusal::BadTargetFormat)
    } else if search_scope_of(actor) == SearchScope::Denied {
        Err(Refusal::PermissionsTooLow)
    } else {
        Ok(search_scope_of(actor))
    }
}

/// What is checked of a request to delete a redirect.
pub open spec fn remove_redirect_check(actor: Permission, named: bool) -> Result<
    SearchScope,
    Refusal,
> {
    if !named {
        Err(Refusal::Missing(Param::Name))
    } else if search_scope_of(actor) == SearchScope::Denied {
        Err(Refusal::PermissionsTooLow)
    } else {
        Ok(search_scope_of(actor))
    }
}

/// What is checked of a request to create a principal: a name and a secret are
/// given, the permissions fit the schema, and the caller may govern a principal
/// with them.
pub open spec fn create_principal_check(
    actor: Permission,
    named: bool,
    with_secret: bool,
    permission: Option<u8>,
) -> Result<Permission, Refusal> {
    if !named {
        Err(Refusal::Missing(Param::Name))
    } else if !with_secret {
        Err(Refusal::Missing(Param::Password))
    } else {
        match requested(permission) {
            Err(_) => Err(Refusal::BadPermission),
            Ok(wanted) => if outranks(actor, wanted) {
                Ok(wanted)
            } else {
                Err(Refusal::PermissionsTooLow)
            },
        }
    }
}

/// What is checked of a request to change a principal: a name is given, new
/// permissions, if there are any, fit the schema, and the caller may assign
/// them.
pub open spec fn edit_principal_check(
    actor: Permission,
    named: bool,
    permission: Option<u8>,
) -> Result<Option<Permission>, Refusal> {
    if !named {
        Err(Refusal::Missing(Param::Name))
    } else {
        match permission {
            None => if may_request_change(actor, None) {
                Ok(None)
            } else {
                Err(Refusal::PermissionsTooLow)
            },
            Some(mask) => match Permission::unmasked(mask) {
                Err(_) => Err(Refusal::BadPermission),
                Ok(wanted) => if may_request_change(actor, Some(wanted)) {
                    Ok(Some(wanted))
                } else {
                    Err(Refusal::PermissionsTooLow)
                },
            },
        }
    }
}

/// What follows from the store's answer for the principal that is to be
/// changed or deleted; `missing` is the refusal for a name that the store does
/// not hold.
pub open spec fn subject_check(actor: Permission, subject: Fetch, missing: Refusal) -> Result<
    (),
    Refusal,
> {
    match subject {
        Fetch::Unavailable => Err(Refusal::Database),
        Fetch::Absent => Err(missing),
        Fetch::Found(held) => if outranks(actor, held) {
            Ok(())
        } else {
            Err(Refusal::PermissionsTooLow)
        },
    }
}

/// What follows from the store's answer for a name that must be free; `taken`
/// is the refusal for a name in use.
pub open spec fn free_check(answer: NameLookup, taken: Refusal) -> Result<(), Refusal> {
    match answer {
        NameLookup::Unavailable => Err(Refusal::Database),
        NameLookup::Taken => Err(taken),
        NameLookup::Free => Ok(()),
    }
}

/// What follows from the store's answer for a name that must be in use;
/// `missing` is the refusal for a free name.
pub open spec fn taken_check(answer: NameLookup, missing: Refusal) -> Result<(), Refusal> {
    match answer {
        NameLookup::Unavailable => Err(Refusal::Database),
        NameLookup::Free => Err(missing),
        NameLookup::Taken => Ok(()),
    }
}

/// The refusal with which a search for a random name ends, if it ended without
/// a name.
pub open spec fn search_refusal(search: NameSearchView) -> Option<Refusal> {
    match search {
        NameSearchView::Exhausted => Some(Refusal::NoRandomName),
        NameSearchView::Unavailable => Some(Refusal::Database),
        _ => None,
    }
}

/// Matches a target, if one is given, against the pattern of targets.
pub fn match_target(target: &Option<String>) -> (matched: Option<bool>)
    ensures
        matched == match target_match(chars(*target)) {
            Some(outcome) => Some(accepts(outcome)),
            None => None,
        },
{
    match target {
        Some(t) => Some(target_allowed(t.as_str())),
        None => None,
    }
}

/// Which redirects the caller is shown.
pub fn list_redirects(actor: &Permission) -> (r: Result<ResourceScope, Refusal>)
    ensures
        r == if resource_scope_of(*actor) == ResourceScope::Denied {
            Err::<ResourceScope, Refusal>(Refusal::PermissionsTooLow)
        } else {
            Ok::<ResourceScope, Refusal>(resource_scope_of(*actor))
        },
{
    match resource_scope(actor) {
        ResourceScope::Denied => Err(Refusal::PermissionsTooLow),
        scope => Ok(scope),
    }
}

/// Which principals the caller is shown.
pub fn list_principals(actor: &Permission) -> (r: Result<PrincipalScope, Refusal>)
    ensures
        r == if principal_scope_of(*actor) == PrincipalScope::Denied {
            Err::<PrincipalScope, Refusal>(Refusal::PermissionsTooLow)
        } else {
            Ok::<PrincipalScope, Refusal>(principal_scope_of(*actor))
        },
{
    match principal_scope(actor) {
        PrincipalScope::Denied => Err(Refusal::PermissionsTooLow),
        scope => Ok(scope),
    }
}

/// Checks a request for a redirect under a random name, given whether its
/// target matched the pattern of targets; `None` where it has no target.
pub fn random_redirect_matched(actor: &Permission, matched: Option<bool>) -> (r: Result<
    (),
    Refusal,
>)
    ensures
        r == random_redirect_check(
            *actor,
            match matched {
                Some(m) => Some(Some(m)),
                None => None,
            },
        ),
{
    match matched {
        None => Err(Refusal::Missing(Param::Domain)),
        Some(m) => {
            if !accepted(Some(m)) {
                Err(Refusal::BadTargetFormat)
            } else if !actor.can_random() {
                Err(Refusal::PermissionsTooLow)
            } else {
                Ok(())
            }
        },
    }
}

/// Checks a request for a redirect under a random name.
pub fn random_redirect(actor: &Permission, target: &Option<String>) -> (r: Result<(), Refusal>)
    ensures
        r == random_redirect_check(*actor, target_match(chars(*target))),
        r is Ok ==> target is Some,
{
    random_redirect_matched(actor, match_target(target))
}

/// Checks a request for a redirect under a chosen name, given whether its
/// target matched the pattern of targets; `None` where it has no target.
pub fn create_redirect_matched(actor: &Permission, named: bool, matched: Option<bool>) -> (r:
    Result<(), Refusal>)
    ensures
        r == create_redirect_check(
            *actor,
            named,
            match matched {
                Some(m) => Some(Some(m)),
                None => None,
            },
        ),
{
    if !named {
        return Err(Refusal::Missing(Param::Name));
    }
    match matched {
        None => Err(Refusal::Missing(Param::Domain)),
        Some(m) => {
            if !accepted(Some(m)) {
                Err(Refusal::BadTargetFormat)
            } else if !actor.can_own() {
                Err(Refusal::PermissionsTooLow)
            } else {
                Ok(())
            }
        },
    }
}

/// Checks a request for a redirect under a chosen name.
pub fn create_redirect(actor: &Permission, name: &Option<String>, target: &Option<String>) -> (r:
    Result<(), Refusal>)
    ensures
        r == create_redirect_check(*actor, name is Some, target_match(chars(*target))),
        r is Ok ==> name is Some && target is Some,
{
    if name.is_none() {
        return Err(Refusal::Missing(Param::Name));
    }
    create_redirect_matched(actor, true, match_target(target))
}

/// Checks a request to change a redirect, given whether its new target matched
/// the pattern of targets; `None` where the target stays.
pub fn edit_redirect_matched(actor: &Permission, named: bool, matched: Option<bool>) -> (r: Result<
    SearchScope,
    Refusal,
>)
    ensures
        r == edit_redirect_check(
            *actor,
            named,
            match matched {
                Some(m) => Some(Some(m)),
                None => None,
            },
        ),
        r matches Ok(scope) ==> scope != SearchScope::Denied,
{
    if !named {
        return Err(Refusal::Missing(Param::Name));
    }
    match matched {
        Some(m) => {
            if !accepted(Some(m)) {
                return Err(Refusal::BadTargetFormat);
            }
        },
        None => {},
    }
    match search_scope(actor) {
        SearchScope::Denied => Err(Refusal::PermissionsTooLow),
        scope => Ok(scope),
    }
}

/// Checks a request to change a redirect, and says how the redirect is looked
/// up.
pub fn edit_redirect(actor: &Permission, name: &Option<String>, target: &Option<String>) -> (r:
    Result<SearchScope, Refusal>)
    ensures
        r == edit_redirect_check(*actor, name is Some, target_match(chars(*target))),
        r matches Ok(scope) ==> scope != SearchScope::Denied && name is Some,
{
    if name.is_none() {
        return Err(Refusal::Missing(Param::Name));
    }
    edit_redirect_matched(actor, true, match_target(target))
}

/// Checks a request to delete a redirect, and says how the redirect is looked
/// up.
pub fn remove_redirect(actor: &Permission, name: &Option<String>) -> (r: Result<
    SearchScope,
    Refusal,
>)
    ensures
        r == remove_redirect_check(*actor, name is Some),
        r matches Ok(scope) ==> scope != SearchScope::Denied && name is Some,
{
    if name.is_none() {
        return Err(Refusal::Missing(Param::Name));
    }
    match search_scope(actor) {
        SearchScope::Denied => Err(Refusal::PermissionsTooLow),
        scope => Ok(scope),
    }
}

/// Checks a request to create a principal, and reads the permissions that the
/// new principal is to have.
pub fn create_principal(
    actor: &Permission,
    name: &Option<String>,
    secret: &Option<String>,
    permission: Option<u8>,
) -> (r: Result<Permission, Refusal>)
    ensures
        r == create_principal_check(*actor, name is Some, secret is Some, permission),
        r matches Ok(wanted) ==> outranks(*actor, wanted) && name is Some && secret is Some,
{
    if name.is_none() {
        return Err(Refusal::Missing(Param::Name));
    }
    if secret.is_none() {
        return Err(Refusal::Missing(Param::Password));
    }
    match requested_permission(permission) {
        Err(_) => Err(Refusal::BadPermission),
        Ok(wanted) => {
            if may_govern(actor, &wanted) {
                Ok(wanted)
            } else {
                Err(Refusal::PermissionsTooLow)
            }
        },
    }
}

/// Checks a request to change a principal, and reads the permissions that it
/// assigns, if any.
pub fn edit_principal(actor: &Permission, name: &Option<String>, permission: Option<u8>) -> (r:
    Result<Option<Permission>, Refusal>)
    ensures
        r == edit_principal_check(*actor, name is Some, permission),
        r is Ok ==> actor.grants(Capability::Manage) && name is Some,
{
    if name.is_none() {
        return Err(Refusal::Missing(Param::Name));
    }
    let wanted = match permission {
        None => None,
        Some(mask) => match Permission::from_u8(mask) {
            Err(_) => {
                return Err(Refusal::BadPermission);
            },
            Ok(w) => Some(w),
        },
    };
    if may_change_principal(actor, wanted) {
        Ok(wanted)
    } else {
        Err(Refusal::PermissionsTooLow)
    }
}

/// Checks a request to delete a principal: it must name one.
pub fn delete_principal(name: &Option<String>) -> (r: Result<(), Refusal>)
    ensures
        r == if name is Some {
            Ok::<(), Refusal>(())
        } else {
            Err::<(), Refusal>(Refusal::Missing(Param::Name))
        },
{
    if name.is_none() {
        Err(Refusal::Missing(Param::Name))
    } else {
        Ok(())
    }
}

/// Decides on the principal that is to be changed or deleted, by what the store
/// holds of it.
pub fn check_subject(actor: &Permission, subject: Fetch, missing: Refusal) -> (r: Result<
    (),
    Refusal,
>)
    ensures
        r == subject_check(*actor, subject, missing),
{
    match subject {
        Fetch::Unavailable => Err(Refusal::Database),
        Fetch::Absent => Err(missing),
        Fetch::Found(held) => {
            if may_govern(actor, &held) {
                Ok(())
            } else {
                Err(Refusal::PermissionsTooLow)
            }
        },
    }
}

/// Decides on a name that must be free.
pub fn check_free(answer: NameLookup, taken: Refusal) -> (r: Result<(), Refusal>)
    ensures
        r == free_check(answer, taken),
{
    match answer {
        NameLookup::Unavailable => Err(Refusal::Database),
        NameLookup::Taken => Err(taken),
        NameLookup::Free => Ok(()),
    }
}

/// Decides on a name that must be in use.
pub fn check_taken(answer: NameLookup, missing: Refusal) -> (r: Result<(), Refusal>)
    ensures
        r == taken_check(answer, missing),
{
    match answer {
        NameLookup::Unavailable => Err(Refusal::Database),
        NameLookup::Free => Err(missing),
        NameLookup::Taken => Ok(()),
    }
}

/// The refusal with which a search for a random name ends: none while it asks
/// and when it has found a name.
pub fn check_search(search: &NameSearch) -> (refusal: Option<Refusal>)
    ensures
        refusal == search_refusal(search@),
{
    match search {
        NameSearch::Exhausted => Some(Refusal::NoRandomName),
        NameSearch::Unavailable => Some(Refusal::Database),
        _ => None,
    }
}

/// Takes the hash of a new secret, or refuses where the hashing failed.
pub fn check_hash(hash: Option<String>) -> (r: Result<String, Refusal>)
    ensures
        r == match hash {
            Some(h) => Ok::<String, Refusal>(h),
            None => Err::<String, Refusal>(Refusal::HashFailed),
        },
{
    match hash {
        Some(h) => Ok(h),
        None => Err(Refusal::HashFailed),
    }
}

/// No endpoint lets a caller without the manager's capability create or change
/// a principal, and none lets a caller who is no administrator hand out the
/// manager's capability or the administrator's.
pub proof fn law_no_escalation(
    actor: Permission,
    named: bool,
    with_secret: bool,
    permission: Option<u8>,
)
    ensures
        create_principal_check(actor, named, with_secret, permission) matches Ok(wanted) ==> {
            &&& actor.grants(Capability::Manage)
            &&& wanted.grants(Capability::Manage) ==> actor@[0]
        },
        edit_principal_check(actor, named, permission) matches Ok(change) ==> {
            &&& actor.grants(Capability::Manage)
            &&& change matches Some(wanted) ==> (wanted.grants(Capability::Manage) ==> actor@[0])
        },
{
}

/// A request that lacks its name is refused for that, whoever sends it.
pub proof fn law_name_is_checked_first(
    actor: Permission,
    matched: Option<Option<bool>>,
    with_secret: bool,
    permission: Option<u8>,
)
    ensures
        create_redirect_check(actor, false, matched) == Err::<(), Refusal>(
            Refusal::Missing(Param::Name),
        ),
        edit_redirect_check(actor, false, matched) == Err::<SearchScope, Refusal>(
            Refusal::Missing(Param::Name),
        ),
        remove_redirect_check(actor, false) == Err::<SearchScope, Refusal>(
            Refusal::Missing(Param::Name),
        ),
        create_principal_check(actor, false, with_secret, permission) == Err::<
            Permission,
            Refusal,
        >(Refusal::Missing(Param::Name)),
        edit_principal_check(actor, false, permission) == Err::<Option<Permission>, Refusal>(
            Refusal::Missing(Param::Name),
        ),
{
}

} // verus!
