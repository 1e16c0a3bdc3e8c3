use redirector::guard::AuthError;
use redirector::permission::Permission;
use redirector::reply::{permission_string, Notice, Reply};

fn no(text: &str) -> Reply {
    Reply { success: false, text: text.to_string() }
}

fn yes(text: &str) -> Reply {
    Reply { success: true, text: text.to_string() }
}

#[test]
fn notices() {
    assert_eq!(Notice::DatabaseFind.reply(), no("Database error whilst trying to find."));
    assert_eq!(
        Notice::DatabaseCollect.reply(),
        no("Database error whilst trying to collect data.")
    );
    assert_eq!(
        Notice::ServerFormat.reply(),
        no("Server error whilst response formatting.")
    );
    assert_eq!(
        Notice::PermissionsTooLow.reply(),
        no("Could not do that. Permissions too low.")
    );
    assert_eq!(Notice::NothingChanged.reply(), no("Nothing changed."));
    assert_eq!(Notice::NothingDeleted.reply(), no("Nothing deleted."));
    assert_eq!(
        Notice::BadTargetFormat.reply(),
        no("Sent domain doesn't match the format e. g. https://example.com.")
    );
    assert_eq!(Notice::UsePost.reply(), no("Use post"));
    assert_eq!(Notice::UsePut.reply(), no("Use put"));
    assert_eq!(Notice::UseDelete.reply(), no("Use delete"));
    assert_eq!(Notice::UsePost.message(), "Use post");
}

#[test]
fn plain_replies() {
    assert_eq!(Reply::new(true, "ok"), yes("ok"));
    assert_eq!(Reply::new(false, ""), no(""));
    assert_eq!(
        Reply::missing_param("domain"),
        no("User error, did not provide 'domain' param.")
    );
    assert_eq!(Reply::exist("Redirect", "already"), no("Redirect already exist."));
    assert_eq!(Reply::exist("Auth", "doesn't"), no("Auth doesn't exist."));
    assert_eq!(Reply::could_not("find", "redirect"), no("Could not find redirect."));
}

#[test]
fn unauthenticated_replies() {
    assert_eq!(
        Reply::unauthenticated(AuthError::UnknownPrincipal),
        no("Wrong name or password.")
    );
    assert_eq!(
        Reply::unauthenticated(AuthError::InvalidSecret),
        Reply::unauthenticated(AuthError::UnknownPrincipal)
    );
    assert_eq!(
        Reply::unauthenticated(AuthError::VerificationError),
        no("Bcrypt error whilst trying to verify user.")
    );
}

#[test]
fn created_redirects() {
    assert_eq!(
        Reply::redirect_created(true, false, "https://example.com", "test"),
        yes("Created redirect to 'https://example.com' named 'test'.")
    );
    assert_eq!(
        Reply::redirect_created(true, true, "https://example.com", "a1B2c3D4"),
        yes("Created random redirect to 'https://example.com' named 'a1B2c3D4'.")
    );
    assert_eq!(
        Reply::redirect_created(false, false, "https://example.com", "test"),
        no("Could not create redirect.")
    );
    assert_eq!(
        Reply::redirect_created(false, true, "https://example.com", "test"),
        no("Could not create random redirect.")
    );
}

#[test]
fn created_principals() {
    let p = Permission::from_arr([0, 0, 0, 0, 1, 1]);
    assert_eq!(
        Reply::principal_created(true, "bob", &p),
        yes("Created auth named 'bob' with permission: 000011.")
    );
    assert_eq!(
        Reply::principal_created(false, "bob", &p),
        no("Could not create auth.")
    );
}

#[test]
fn deletions() {
    assert_eq!(
        Reply::deleted(Some(1), "redirect", "test"),
        yes("Deleted redirect named 'test'")
    );
    assert_eq!(
        Reply::deleted(Some(1), "auth", "bob"),
        yes("Deleted auth named 'bob'")
    );
    assert_eq!(Reply::deleted(Some(0), "redirect", "test"), no("Nothing deleted."));
    assert_eq!(
        Reply::deleted(None, "redirect", "test"),
        no("Could not delete redirect.")
    );
    assert_eq!(Reply::deleted(None, "auth", "bob"), no("Could not delete auth."));
}

#[test]
fn edited_redirects() {
    assert_eq!(
        Reply::redirect_edited(
            Some(1),
            "test",
            None,
            "https://example.com",
            Some("https://example.pl")
        ),
        yes("Edited redirect, permission 'https://example.com' -> 'https://example.pl'")
    );
    assert_eq!(
        Reply::redirect_edited(Some(1), "test", Some("example"), "https://example.pl", None),
        yes("Edited redirect, name 'test' -> 'example'")
    );
    assert_eq!(
        Reply::redirect_edited(
            Some(1),
            "example",
            Some("test2"),
            "https://example.pl",
            Some("https://google.com")
        ),
        yes("Edited redirect, name 'example' -> 'test2' and permission 'https://example.pl' -> 'https://google.com'")
    );
    assert_eq!(
        Reply::redirect_edited(Some(1), "test", None, "https://example.com", None),
        no("Nothing changed.")
    );
    assert_eq!(
        Reply::redirect_edited(Some(0), "test", Some("x"), "https://example.com", None),
        no("Nothing changed.")
    );
    assert_eq!(
        Reply::redirect_edited(None, "test", Some("x"), "https://example.com", None),
        no("Could not edit redirect.")
    );
}

#[test]
fn edited_principals() {
    let old = Permission::from_arr([0, 0, 0, 0, 1, 0]);
    let new = Permission::from_arr([0, 1, 0, 0, 1, 0]);
    assert_eq!(
        Reply::principal_edited(Some(1), "bob", Some("rob"), true, &old, Some(new)),
        yes("Edited auth, name 'bob' -> 'rob' and password changed and permission '000010' -> '010010'")
    );
    assert_eq!(
        Reply::principal_edited(Some(1), "bob", None, true, &old, None),
        yes("Edited auth, password changed")
    );
    assert_eq!(
        Reply::principal_edited(Some(1), "bob", None, false, &old, Some(new)),
        yes("Edited auth, permission '000010' -> '010010'")
    );
    assert_eq!(
        Reply::principal_edited(Some(1), "bob", None, false, &old, None),
        no("Nothing changed.")
    );
    assert_eq!(
        Reply::principal_edited(Some(0), "bob", Some("rob"), false, &old, None),
        no("Nothing changed.")
    );
    assert_eq!(
        Reply::principal_edited(None, "bob", Some("rob"), false, &old, None),
        no("Could not edit redirect.")
    );
}

#[test]
fn permission_strings() {
    assert_eq!(permission_string(&Permission::none()), "000000");
    assert_eq!(permission_string(&Permission::administrator()), "100000");
    assert_eq!(
        permission_string(&Permission::from_arr([0, 1, 0, 1, 0, 1])),
        "010101"
    );
}
