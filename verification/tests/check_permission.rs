use rustle::db::rbac::{role_vec_to_str, PermissionToRole, RBACUserError};
use rustle::providers::auth::cache::PermissionCache;
use rustle::providers::auth::service::{check_permission_api, delete_role_cache};
use rustle::utils::sorted::any_role_in;
use rustle::types::err::GlobalUserError;

fn scenario_cache() -> PermissionCache {
    let mut cache = PermissionCache::new();
    cache.rebuild(&vec![
        PermissionToRole { id: 1, role: 1, permission: String::from("MANAGE_ROLE") },
        PermissionToRole { id: 2, role: 2, permission: String::from("MANAGE_ROLE") },
        PermissionToRole { id: 3, role: 2, permission: String::from("CREATE_ARTICLE") },
    ]);
    cache
}

#[test]
fn actor_with_role_one() {
    let cache = scenario_cache();
    assert_eq!(check_permission_api(&cache, Some("1"), "MANAGE_ROLE"), Ok(()));
    assert_eq!(
        check_permission_api(&cache, Some("1"), "CREATE_ARTICLE"),
        Err(GlobalUserError::PermissionDenied.to_error())
    );
}

#[test]
fn actor_with_role_two() {
    let cache = scenario_cache();
    assert_eq!(check_permission_api(&cache, Some("2"), "MANAGE_ROLE"), Ok(()));
    assert_eq!(check_permission_api(&cache, Some("2"), "CREATE_ARTICLE"), Ok(()));
}

#[test]
fn actor_without_roles_is_denied() {
    let cache = scenario_cache();
    let denied = Err(GlobalUserError::PermissionDenied.to_error());
    assert_eq!(check_permission_api(&cache, Some(""), "MANAGE_ROLE"), denied);
    assert_eq!(check_permission_api(&cache, Some(""), "CREATE_ARTICLE"), denied);
}

#[test]
fn after_the_role_is_deleted_its_holder_is_denied() {
    let mut cache = scenario_cache();
    delete_role_cache(&mut cache, 2);
    let denied = Err(GlobalUserError::PermissionDenied.to_error());
    assert_eq!(check_permission_api(&cache, Some("2"), "MANAGE_ROLE"), denied);
    assert_eq!(check_permission_api(&cache, Some("2"), "CREATE_ARTICLE"), denied);
    let left = cache.get("CREATE_ARTICLE");
    assert!(left.is_none() || left == Some(vec![]));
    assert_eq!(check_permission_api(&cache, Some("1"), "MANAGE_ROLE"), Ok(()));
}

#[test]
fn any_one_role_is_enough() {
    let cache = scenario_cache();
    assert_eq!(check_permission_api(&cache, Some("7,8,2"), "CREATE_ARTICLE"), Ok(()));
    assert_eq!(check_permission_api(&cache, Some("2,7,8"), "CREATE_ARTICLE"), Ok(()));
    assert_eq!(
        check_permission_api(&cache, Some("7,8,9"), "CREATE_ARTICLE"),
        Err(GlobalUserError::PermissionDenied.to_error())
    );
}

#[test]
fn unknown_tag_denies_everyone() {
    let cache = scenario_cache();
    let denied = Err(GlobalUserError::PermissionDenied.to_error());
    assert_eq!(check_permission_api(&cache, Some("1,2"), "MANAGE_USER"), denied);
    assert_eq!(check_permission_api(&cache, None, "MANAGE_USER"), denied);
}

#[test]
fn corrupted_role_string_is_its_own_error() {
    let cache = scenario_cache();
    let corrupted = Err(RBACUserError::RoleStrCorrupted.to_error());
    assert_eq!(check_permission_api(&cache, Some("1,x"), "MANAGE_ROLE"), corrupted);
    assert_eq!(check_permission_api(&cache, Some("1,"), "MANAGE_ROLE"), corrupted);
    assert_eq!(check_permission_api(&cache, Some("x"), "NO_SUCH_TAG"), corrupted);
}

#[test]
fn anonymous_acts_as_role_zero() {
    let mut cache = scenario_cache();
    let denied = Err(GlobalUserError::PermissionDenied.to_error());
    assert_eq!(check_permission_api(&cache, None, "MANAGE_ROLE"), denied);
    assert_eq!(check_permission_api(&cache, Some("0"), "MANAGE_ROLE"), denied);
    cache.add_grant("READ", 0);
    assert_eq!(check_permission_api(&cache, None, "READ"), Ok(()));
    assert_eq!(check_permission_api(&cache, Some("0"), "READ"), Ok(()));
    let zero = role_vec_to_str(vec![0]).unwrap();
    for tag in ["READ", "MANAGE_ROLE", "CREATE_ARTICLE", "NONE"] {
        assert_eq!(
            check_permission_api(&cache, None, tag),
            check_permission_api(&cache, Some(zero.as_str()), tag)
        );
    }
}

#[test]
fn any_role_in_searches_each_role() {
    let group = vec![1, 4, 9, 16];
    assert!(any_role_in(&vec![2, 3, 9], &group));
    assert!(any_role_in(&vec![16], &group));
    assert!(!any_role_in(&vec![2, 3, 5], &group));
    assert!(!any_role_in(&vec![], &group));
    assert!(!any_role_in(&vec![1], &vec![]));
}
