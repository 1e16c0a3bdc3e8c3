//! The replies of the management endpoints: a success flag and a text.

use vstd::prelude::*;
use vstd::string::*;
use crate::guard::AuthError;
use crate::permission::Permission;

verus! {

/// What an endpoint answers.
#[derive(Clone, Debug, PartialEq, Eq)]
pub struct Reply {
    pub success: bool,
    pub text: String,
}

/// A reply whose text does not depend on the request.
#[derive(Clone, Copy, Debug, PartialEq, Eq, Structural)]
pub enum Notice {
    DatabaseFind,
    DatabaseCollect,
    ServerFormat,
    PermissionsTooLow,
    NothingChanged,
    NothingDeleted,
    BadTargetFormat,
    UsePost,
    UsePut,
    UseDelete,
}

impl Notice {
    /// The text of the notice.
    pub open spec fn text(self) -> Seq<char> {
        match self {
            Notice::DatabaseFind => "Database error whilst trying to find."@,
            Notice::DatabaseCollect => "Database error whilst trying to collect data."@,
            Notice::ServerFormat => "Server error whilst response formatting."@,
            Notice::PermissionsTooLow => "Could not do that. Permissions too low."@,
            Notice::NothingChanged => "Nothing changed."@,
            Notice::NothingDeleted => "Nothing deleted."@,
            Notice::BadTargetFormat =>
                "Sent domain doesn't match the format e. g. https://example.com."@,
            Notice::UsePost => "Use post"@,
            Notice::UsePut => "Use put"@,
            Notice::UseDelete => "Use delete"@,
        }
    }

    /// The text of the notice.
    pub fn message(&self) -> (text: &'static str)
        ensures
            text@ == self.text(),
    {
        match self {
            Notice::DatabaseFind => "Database error whilst trying to find.",
            Notice::DatabaseCollect => "Database error whilst trying to collect data.",
            Notice::ServerFormat => "Server error whilst response formatting.",
            Notice::PermissionsTooLow => "Could not do that. Permissions too low.",
            Notice::NothingChanged => "Nothing changed.",
            Notice::NothingDeleted => "Nothing deleted.",
            Notice::BadTargetFormat =>
                "Sent domain doesn't match the format e. g. https://example.com.",
            Notice::UsePost => "Use post",
            Notice::UsePut => "Use put",
            Notice::UseDelete => "Use delete",
        }
    }

    /// The notice as a reply. A notice never reports success.
    pub fn reply(&self) -> (r: Reply)
        ensures
            !r.success,
            r.text@ == self.text(),
    {
        Reply::new(false, self.message())
    }
}

/// The text for a parameter that the request lacks.
pub open spec fn missing_param_text(param: Seq<char>) -> Seq<char> {
    "User error, did not provide '"@ + param + "' param."@
}

/// The text for a thing that does or does not exist, as `action` says.
pub open spec fn exist_text(thing: Seq<char>, action: Seq<char>) -> Seq<char> {
    thing + " "@ + action + " exist."@
}

/// The text for an action that failed on a thing.
pub open spec fn could_not_text(action: Seq<char>, thing: Seq<char>) -> Seq<char> {
    "Could not "@ + action + " "@ + thing + "."@
}

/// The text for a redirect that was created; `random` where its name was drawn.
pub open spec fn created_redirect_text(random: bool, target: Seq<char>, name: Seq<char>) -> Seq<
    char,
> {
    (if random {
        "Created random redirect to '"@
    } else {
        "Created redirect to '"@
    }) + target + "' named '"@ + name + "'."@
}

/// The text for a principal that was created.
pub open spec fn created_principal_text(name: Seq<char>, permissions: Permission) -> Seq<char> {
    "Created auth named '"@ + name + "' with permission: "@ + permission_text(permissions)
        + "."@
}

/// The text for a thing of some kind that was deleted.
pub open spec fn deleted_text(kind: Seq<char>, name: Seq<char>) -> Seq<char> {
    "Deleted "@ + kind + " named '"@ + name + "'"@
}

/// One character per flag, in schema order: `1` for a set flag, `0` for a clear
/// one.
pub open spec fn permission_text(permissions: Permission) -> Seq<char> {
    Seq::new(crate::permission::SCHEMA_LEN as nat, |i: int| if permissions@[i] { '1' } else { '0' })
}

/// The text for one field that changed.
pub open spec fn change_text(label: Seq<char>, from: Seq<char>, to: Seq<char>) -> Seq<char> {
    label + " '"@ + from + "' -> '"@ + to + "'"@
}

/// A list of changes with one more: the first stands alone, the others are
/// joined with `and`.
pub open spec fn joined(changes: Seq<char>, next: Seq<char>) -> Seq<char> {
    if changes.len() == 0 {
        next
    } else {
        changes + " and "@ + next
    }
}

/// The changes of a redirect, empty where nothing was asked for.
pub open spec fn redirect_changes(
    name: Seq<char>,
    new_name: Option<Seq<char>>,
    target: Seq<char>,
    new_target: Option<Seq<char>>,
) -> Seq<char> {
    let renamed = match new_name {
        Some(n) => change_text("name"@, name, n),
        None => Seq::<char>::empty(),
    };
    match new_target {
        Some(t) => joined(renamed, change_text("permission"@, target, t)),
        None => renamed,
    }
}

/// The changes of a principal, empty where nothing was asked for.
pub open spec fn principal_changes(
    name: Seq<char>,
    new_name: Option<Seq<char>>,
    secret_changed: bool,
    permissions: Permission,
    new_permissions: Option<Permission>,
) -> Seq<char> {
    let renamed = match new_name {
        Some(n) => change_text("name"@, name, n),
        None => Seq::<char>::empty(),
    };
    let rehashed = if secret_changed {
        joined(renamed, "password changed"@)
    } else {
        renamed
    };
    match new_permissions {
        Some(p) => joined(
            rehashed,
            change_text("permission"@, permission_text(permissions), permission_text(p)),
        ),
        None => rehashed,
    }
}

/// The characters of a string, if there is one.
pub open spec fn chars_of(s: Option<&str>) -> Option<Seq<char>> {
    match s {
        Some(t) => Some(t@),
        None => None,
    }
}

fn append_change(changes: &mut String, label: &str, from: &str, to: &str)
    ensures
        final(changes)@ == joined(old(changes)@, change_text(label@, from@, to@)),
{
    let mut change = String::from_str(label);
    change.append(" '");
    change.append(from);
    change.append("' -> '");
    change.append(to);
    change.append("'");
    append_joined(changes, change.as_str());
}

fn append_joined(changes: &mut String, next: &str)
    ensures
        final(changes)@ == joined(old(changes)@, next@),
{
    if changes.as_str().is_empty() {
        assert(changes@ + next@ =~= next@);
        changes.append(next);
    } else {
        changes.append(" and ");
        changes.append(next);
    }
}

/// One character per flag of `permissions`, in schema order.
pub fn permission_string(permissions: &Permission) -> (text: String)
    ensures
        text@ == permission_text(*permissions),
{
    let mut text = String::new();
    text.append(flag_str(permissions.admin));
    text.append(flag_str(permissions.manage));
    text.append(flag_str(permissions.moderate));
    text.append(flag_str(permissions.list));
    text.append(flag_str(permissions.own));
    text.append(flag_str(permissions.random));
    assert(text@ =~= permission_text(*permissions));
    text
}

fn flag_str(flag: bool) -> (text: &'static str)
    ensures
        text@ == seq![if flag { '1' } else { '0' }],
{
    if flag {
        proof {
            reveal_strlit("1");
        }
        assert("1"@ =~= seq!['1']);
        "1"
    } else {
        proof {
            reveal_strlit("0");
        }
        assert("0"@ =~= seq!['0']);
        "0"
    }
}

impl Reply {
    /// A reply with the given flag and text.
    pub fn new(success: bool, text: &str) -> (r: Reply)
        ensures
            r.success == success,
            r.text@ == text@,
    {
        Reply { success, text: String::from_str(text) }
    }

    /// The reply to a request that was not authenticated.
    pub fn unauthenticated(error: AuthError) -> (r: Reply)
        ensures
            !r.success,
            r.text@ == error.shown_text(),
    {
        Reply::new(false, error.message())
    }

    /// The reply to a request that lacks the parameter `param`.
    pub fn missing_param(param: &str) -> (r: Reply)
        ensures
            !r.success,
            r.text@ == missing_param_text(param@),
    {
        let mut text = String::from_str("User error, did not provide '");
        text.append(param);
        text.append("' param.");
        Reply { success: false, text }
    }

    /// The reply for a thing that does or does not exist, as `action` says.
    pub fn exist(thing: &str, action: &str) -> (r: Reply)
        ensures
            !r.success,
            r.text@ == exist_text(thing@, action@),
    {
        let mut text = String::from_str(thing);
        text.append(" ");
        text.append(action);
        text.append(" exist.");
        Reply { success: false, text }
    }

    /// The reply for an action that failed on a thing.
    pub fn could_not(action: &str, thing: &str) -> (r: Reply)
        ensures
            !r.success,
            r.text@ == could_not_text(action@, thing@),
    {
        let mut text = String::from_str("Could not ");
        text.append(action);
        text.append(" ");
        text.append(thing);
        text.append(".");
        Reply { success: false, text }
    }

    /// The reply to the creation of a redirect, given whether the store took
    /// it; `random` where the name was drawn.
    pub fn redirect_created(stored: bool, random: bool, target: &str, name: &str) -> (r: Reply)
        ensures
            r.success == stored,
            stored ==> r.text@ == created_redirect_text(random, target@, name@),
            !stored ==> r.text@ == could_not_text(
                "create"@,
                if random {
                    "random redirect"@
                } else {
                    "redirect"@
                },
            ),
    {
        if !stored {
            return Reply::could_not(
                "create",
                if random {
                    "random redirect"
                } else {
                    "redirect"
                },
            );
        }
        let mut text = String::from_str(
            if random {
                "Created random redirect to '"
            } else {
                "Created redirect to '"
            },
        );
        text.append(target);
        text.append("' named '");
        text.append(name);
        text.append("'.");
        Reply { success: true, text }
    }

    /// The reply to the creation of a principal, given whether the store took
    /// it.
    pub fn principal_created(stored: bool, name: &str, permissions: &Permission) -> (r: Reply)
        ensures
            r.success == stored,
            stored ==> r.text@ == created_principal_text(name@, *permissions),
            !stored ==> r.text@ == could_not_text("create"@, "auth"@),
    {
        if !stored {
            return Reply::could_not("create", "auth");
        }
        let flags = permission_string(permissions);
        let mut text = String::from_str("Created auth named '");
        text.append(name);
        text.append("' with permission: ");
        text.append(flags.as_str());
        text.append(".");
        Reply { success: true, text }
    }

    /// The reply to a deletion. `deleted` is the number of records that the
    /// store deleted, `None` where it failed; `kind` says what was to be deleted.
    pub fn deleted(deleted: Option<u64>, kind: &str, name: &str) -> (r: Reply)
        ensures
            r.success == (deleted matches Some(n) && n > 0),
            match deleted {
                Some(n) => if n > 0 {
                    r.text@ == deleted_text(kind@, name@)
                } else {
                    r.text@ == Notice::NothingDeleted.text()
                },
                None => r.text@ == could_not_text("delete"@, kind@),
            },
    {
        match deleted {
            None => Reply::could_not("delete", kind),
            Some(n) => {
                if n == 0 {
                    return Notice::NothingDeleted.reply();
                }
                let mut text = String::from_str("Deleted ");
                text.append(kind);
                text.append(" named '");
                text.append(name);
                text.append("'");
                Reply { success: true, text }
            },
        }
    }

    /// The reply to the change of a redirect. `modified` is the number of
    /// records that the store changed, `None` where it failed. Each field that
    /// the request named is listed with its old and its new value.
    pub fn redirect_edited(
        modified: Option<u64>,
        name: &str,
        new_name: Option<&str>,
        target: &str,
        new_target: Option<&str>,
    ) -> (r: Reply)
        ensures
            r.success == (modified matches Some(n) && n > 0 && (new_name is Some
                || new_target is Some)),
            modified is None ==> r.text@ == could_not_text("edit"@, "redirect"@),
            modified is Some && !r.success ==> r.text@ == Notice::NothingChanged.text(),
            r.success ==> r.text@ == "Edited redirect, "@ + redirect_changes(
                name@,
                chars_of(new_name),
                target@,
                chars_of(new_target),
            ),
    {
        match modified {
            None => {
                return Reply::could_not("edit", "redirect");
            },
            Some(n) => {
                if n == 0 || (new_name.is_none() && new_target.is_none()) {
                    return Notice::NothingChanged.reply();
                }
            },
        }
        let mut changes = String::new();
        match new_name {
            Some(n) => {
                append_change(&mut changes, "name", name, n);
            },
            None => {},
        }
        match new_target {
            Some(t) => {
                append_change(&mut changes, "permission", target, t);
            },
            None => {},
        }
        let mut text = String::from_str("Edited redirect, ");
        text.append(changes.as_str());
        Reply { success: true, text }
    }

    /// The reply to the change of a principal. `modified` is the number of
    /// records that the store changed, `None` where it failed. The new secret is
    /// not shown.
    pub fn principal_edited(
        modified: Option<u64>,
        name: &str,
        new_name: Option<&str>,
        secret_changed: bool,
        permissions: &Permission,
        new_permissions: Option<Permission>,
    ) -> (r: Reply)
        ensures
            r.success == (modified matches Some(n) && n > 0 && (new_name is Some || secret_changed
                || new_permissions is Some)),
            modified is None ==> r.text@ == could_not_text("edit"@, "redirect"@),
            modified is Some && !r.success ==> r.text@ == Notice::NothingChanged.text(),
            r.success ==> r.text@ == "Edited auth, "@ + principal_changes(
                name@,
                chars_of(new_name),
                secret_changed,
                *permissions,
                new_permissions,
            ),
    {
        match modified {
            None => {
                return Reply::could_not("edit", "redirect");
            },
            Some(n) => {
                if n == 0 || (new_name.is_none() && !secret_changed && new_permissions.is_none()) {
                    return Notice::NothingChanged.reply();
                }
            },
        }
        let mut changes = String::new();
        match new_name {
            Some(n) => {
                append_change(&mut changes, "name", name, n);
            },
            None => {},
        }
        if secret_changed {
            append_joined(&mut changes, "password changed");
        }
        match new_permissions {
            Some(p) => {
                let from = permission_string(permissions);
                let to = permission_string(&p);
                append_change(&mut changes, "permission", from.as_str(), to.as_str());
            },
            None => {},
        }
        let mut text = String::from_str("Edited auth, ");
        text.append(changes.as_str());
        Reply { success: true, text }
    }
}

} // verus!
