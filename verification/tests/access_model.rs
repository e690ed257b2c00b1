use apigw_router::Access;
use apigw_router::OwnedAccess;
use apigw_router::RequestMetadata;
use apigw_router::is_allowed_access;
use apigw_router::is_allowed_owned_access;
use apigw_router::preliminary_access_check;

fn guest() -> RequestMetadata {
    RequestMetadata {
        is_authenticated: false,
        is_admin: false,
        user_sub: None,
    }
}

fn user(sub: &str) -> RequestMetadata {
    RequestMetadata {
        is_authenticated: true,
        is_admin: false,
        user_sub: Some(sub.to_string()),
    }
}

fn admin(sub: &str) -> RequestMetadata {
    RequestMetadata {
        is_authenticated: true,
        is_admin: true,
        user_sub: Some(sub.to_string()),
    }
}

#[test]
fn test_access_truth_table() {
    assert!(is_allowed_access(&guest(), &Access::Guest));
    assert!(is_allowed_access(&user("u"), &Access::Guest));

    assert!(!is_allowed_access(&guest(), &Access::AnyUser));
    assert!(is_allowed_access(&user("u"), &Access::AnyUser));

    assert!(!is_allowed_access(&guest(), &Access::Admin));
    assert!(!is_allowed_access(&user("u"), &Access::Admin));
    assert!(is_allowed_access(&admin("a"), &Access::Admin));
}

#[test]
fn test_none_level_always_denies() {
    for m in [guest(), user("u"), admin("a")] {
        assert!(!is_allowed_access(&m, &Access::Denied));
        assert!(!preliminary_access_check(&m, &OwnedAccess::Denied));
        let owner = "u".to_string();
        assert!(!is_allowed_owned_access(&m, &OwnedAccess::Denied, Some(&owner)));
        assert!(!is_allowed_owned_access(&m, &OwnedAccess::Denied, None));
    }
}

#[test]
fn test_owner_level_checks() {
    let owner = "alice".to_string();
    let other = "bob".to_string();

    assert!(is_allowed_owned_access(
        &user("alice"),
        &OwnedAccess::Owner,
        Some(&owner)
    ));
    assert!(!is_allowed_owned_access(
        &user("alice"),
        &OwnedAccess::Owner,
        Some(&other)
    ));
    // Unresolvable owner denies every level but Guest.
    assert!(!is_allowed_owned_access(&user("alice"), &OwnedAccess::Owner, None));
    assert!(is_allowed_owned_access(&user("alice"), &OwnedAccess::Guest, None));

    // OwnerOrAdmin: an admin passes without owning; a non-owner non-admin
    // does not.
    assert!(is_allowed_owned_access(
        &admin("root"),
        &OwnedAccess::OwnerOrAdmin,
        Some(&owner)
    ));
    assert!(!is_allowed_owned_access(
        &user("bob"),
        &OwnedAccess::OwnerOrAdmin,
        Some(&owner)
    ));
    assert!(is_allowed_owned_access(
        &user("bob"),
        &OwnedAccess::OwnerOrAdmin,
        Some(&other)
    ));
}

#[test]
fn test_preliminary_never_stricter_than_final() {
    let levels = [
        OwnedAccess::Guest,
        OwnedAccess::AnyUser,
        OwnedAccess::Owner,
        OwnedAccess::Admin,
        OwnedAccess::OwnerOrAdmin,
        OwnedAccess::Denied,
    ];
    let owner = "alice".to_string();
    let identities = [guest(), user("alice"), user("bob"), admin("alice"), admin("carol")];
    for level in &levels {
        for m in &identities {
            for owner_arg in [Some(&owner), None] {
                if is_allowed_owned_access(m, level, owner_arg) {
                    assert!(preliminary_access_check(m, level));
                }
            }
        }
    }
}
