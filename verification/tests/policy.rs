use redirector::permission::Permission;
use redirector::policy::{
    may_change_principal, may_create_random, may_create_redirect, may_govern, principal_scope,
    requested_permission, resource_scope, search_scope, PrincipalScope, ResourceScope, SearchScope,
};
use redirector::permission::PermissionError;

fn v(nums: [u8; 6]) -> Permission {
    Permission::from_arr(nums)
}

#[test]
fn resource_scopes() {
    assert_eq!(resource_scope(&v([1, 0, 0, 0, 0, 0])), ResourceScope::All);
    assert_eq!(resource_scope(&v([0, 0, 0, 1, 0, 0])), ResourceScope::All);
    assert_eq!(resource_scope(&v([0, 0, 0, 1, 1, 0])), ResourceScope::All);
    assert_eq!(resource_scope(&v([0, 0, 0, 0, 1, 0])), ResourceScope::Owned);
    assert_eq!(resource_scope(&v([0, 1, 1, 0, 0, 1])), ResourceScope::Denied);
    assert_eq!(resource_scope(&Permission::none()), ResourceScope::Denied);
}

#[test]
fn principal_scopes() {
    assert_eq!(principal_scope(&v([1, 0, 0, 0, 0, 0])), PrincipalScope::All);
    assert_eq!(principal_scope(&v([1, 1, 0, 0, 0, 0])), PrincipalScope::All);
    assert_eq!(
        principal_scope(&v([0, 1, 0, 0, 0, 0])),
        PrincipalScope::BelowAdministrator
    );
    assert_eq!(principal_scope(&v([0, 0, 1, 1, 1, 1])), PrincipalScope::Denied);
}

#[test]
fn search_scopes() {
    assert_eq!(search_scope(&v([1, 0, 0, 0, 0, 0])), SearchScope::ByName);
    assert_eq!(search_scope(&v([0, 0, 1, 0, 0, 0])), SearchScope::ByName);
    assert_eq!(search_scope(&v([0, 0, 0, 0, 1, 0])), SearchScope::ByNameAndOwner);
    assert_eq!(search_scope(&v([0, 1, 0, 1, 0, 1])), SearchScope::Denied);
}

#[test]
fn creating_redirects() {
    assert!(may_create_redirect(&v([0, 0, 0, 0, 1, 0])));
    assert!(may_create_redirect(&v([1, 0, 0, 0, 0, 0])));
    assert!(!may_create_redirect(&v([0, 0, 0, 0, 0, 1])));
    assert!(may_create_random(&v([0, 0, 0, 0, 0, 1])));
    assert!(may_create_random(&v([1, 0, 0, 0, 0, 0])));
    assert!(!may_create_random(&v([0, 0, 0, 0, 1, 0])));
}

#[test]
fn governing_principals() {
    let admin = v([1, 0, 0, 0, 0, 0]);
    let manager = v([0, 1, 0, 0, 0, 0]);
    let owner = v([0, 0, 0, 0, 1, 0]);
    assert!(may_govern(&admin, &admin));
    assert!(may_govern(&admin, &manager));
    assert!(may_govern(&admin, &owner));
    assert!(!may_govern(&manager, &admin));
    assert!(!may_govern(&manager, &manager));
    assert!(may_govern(&manager, &owner));
    assert!(may_govern(&manager, &Permission::none()));
    assert!(!may_govern(&owner, &owner));
    assert!(!may_govern(&owner, &Permission::none()));
}

#[test]
fn changing_principals() {
    let admin = v([1, 0, 0, 0, 0, 0]);
    let manager = v([0, 1, 0, 0, 0, 0]);
    let owner = v([0, 0, 0, 0, 1, 0]);
    assert!(may_change_principal(&admin, None));
    assert!(may_change_principal(&admin, Some(admin)));
    assert!(may_change_principal(&manager, None));
    assert!(may_change_principal(&manager, Some(owner)));
    assert!(!may_change_principal(&manager, Some(manager)));
    assert!(!may_change_principal(&manager, Some(admin)));
    assert!(!may_change_principal(&owner, None));
    assert!(!may_change_principal(&owner, Some(Permission::none())));
}

#[test]
fn requested_permissions() {
    assert_eq!(requested_permission(None), Ok(Permission::none()));
    assert_eq!(requested_permission(Some(0)), Ok(Permission::none()));
    assert_eq!(requested_permission(Some(16)), Ok(v([0, 0, 0, 0, 1, 0])));
    assert_eq!(requested_permission(Some(63)), Ok(v([1, 1, 1, 1, 1, 1])));
    assert_eq!(
        requested_permission(Some(64)),
        Err(PermissionError::SchemaMismatch)
    );
}
