use visdata_rebac::error::Error;
use visdata_rebac::roles::{
    capitalize, create_role, delete_role, filter_permitted, get_role_permissions, get_role_users,
    is_system_role, list_custom_roles, list_roles, list_system_roles, permission_to_relation,
    relation_to_permission, role_permission_tuples, role_user_tuples,
};
use visdata_rebac::types::{PermissionEntry, Tuple, TupleKey};

fn tuple(u: &str, r: &str, o: &str) -> Tuple {
    Tuple { key: TupleKey::new(u, r, o), timestamp: None }
}

#[test]
fn test_permission_conversion() {
    assert_eq!(permission_to_relation("AllowAll"), "ALLOW_ALL");
    assert_eq!(permission_to_relation("AllowGet"), "ALLOW_GET");
    assert_eq!(relation_to_permission("ALLOW_ALL"), "AllowAll");
    assert_eq!(relation_to_permission("ALLOW_GET"), "AllowGet");
}

#[test]
fn roles_test_capitalize() {
    assert_eq!(capitalize("admin"), "Admin");
    assert_eq!(capitalize("developer"), "Developer");
    assert_eq!(capitalize("viewer"), "Viewer");
    assert_eq!(capitalize(""), "");
}

#[test]
fn unknown_permission_names_fall_back_to_read() {
    assert_eq!(permission_to_relation("ALLOWDELETE"), "ALLOW_DELETE");
    assert_eq!(permission_to_relation("nonsense"), "ALLOW_GET");
    assert_eq!(relation_to_permission("nonsense"), "AllowGet");
    assert_eq!(relation_to_permission("ALLOW_LIST"), "AllowList");
}

#[test]
fn system_roles_cannot_be_created_or_deleted() {
    for name in ["admin", "editor", "viewer", "Admin", "EDITOR", "Viewer"] {
        assert!(is_system_role(name));
        assert!(matches!(create_role("default", name, &vec![]), Err(Error::Validation(_))));
        assert!(matches!(delete_role("default", name), Err(Error::Validation(_))));
    }
    assert!(!is_system_role("developer"));
}

#[test]
fn duplicate_roles_are_refused_ignoring_case() {
    let existing = vec!["developer".to_string()];
    assert!(matches!(create_role("default", "Developer", &existing), Err(Error::DuplicateEntry(_))));
    let k = create_role("default", "ops", &existing).unwrap();
    assert_eq!(
        (k.user.as_str(), k.relation.as_str(), k.object.as_str()),
        ("org:default", "owningOrg", "role:default_ops")
    );
}

#[test]
fn listing_roles_keeps_owned_custom_roles_sorted_once() {
    let tuples = vec![
        tuple("org:default", "owningOrg", "role:default_zeta"),
        tuple("org:default", "owningOrg", "role:default_alpha"),
        tuple("org:default", "owningOrg", "role:default_admin"),
        tuple("org:default", "owningOrg", "role:default_alpha"),
        tuple("org:other", "owningOrg", "role:default_mu"),
        tuple("org:default", "member", "role:default_nu"),
        tuple("org:default", "owningOrg", "group:default_g"),
    ];
    assert_eq!(list_roles("default", &tuples), vec!["alpha".to_string(), "zeta".to_string()]);
}

#[test]
fn role_options() {
    let system = list_system_roles("default");
    let pairs: Vec<(&str, &str)> = system.iter().map(|o| (o.label.as_str(), o.value.as_str())).collect();
    assert_eq!(pairs, vec![("Admin", "admin"), ("Editor", "editor"), ("Viewer", "viewer")]);
    let custom = list_custom_roles(&vec!["DevOps".to_string(), "viewer".to_string()]);
    assert_eq!(custom.len(), 1);
    assert_eq!(custom[0].label, "DevOps");
    assert_eq!(custom[0].value, "devops");
}

#[test]
fn deleting_a_role_reads_its_tuples_and_grants() {
    let (a, b) = delete_role("default", "dev").unwrap();
    assert_eq!(a.object.as_deref(), Some("role:default_dev"));
    assert!(a.user.is_none() && a.relation.is_none());
    assert_eq!(b.user.as_deref(), Some("role:default_dev#has"));
    assert!(b.relation.is_none() && b.object.is_none());
}

#[test]
fn role_users_are_user_subjects() {
    let tuples = vec![
        tuple("user:a@x", "assigned", "role:default_dev"),
        tuple("group:default_g#member", "assigned", "role:default_dev"),
        tuple("user:b@x", "assigned", "role:default_dev"),
    ];
    assert_eq!(get_role_users(&tuples), vec!["a@x".to_string(), "b@x".to_string()]);
}

#[test]
fn permission_grants_map_wildcards_and_entities() {
    let perms = vec![
        PermissionEntry { object: "logs:_all_default".to_string(), permission: "AllowGet".to_string() },
        PermissionEntry { object: "dashboard:d1".to_string(), permission: "allowput".to_string() },
        PermissionEntry { object: "malformed".to_string(), permission: "AllowAll".to_string() },
        PermissionEntry { object: "alert:_all".to_string(), permission: "bogus".to_string() },
    ];
    let keys = role_permission_tuples("default", "dev", &perms);
    let got: Vec<(&str, &str, &str)> =
        keys.iter().map(|k| (k.user.as_str(), k.relation.as_str(), k.object.as_str())).collect();
    assert_eq!(
        got,
        vec![
            ("role:default_dev#has", "ALLOW_GET", "logs:_all_default"),
            ("role:default_dev#has", "ALLOW_PUT", "dashboard:d1"),
            ("role:default_dev#has", "ALLOW_GET", "alert:_all_default"),
        ]
    );
}

#[test]
fn permissions_of_one_type() {
    let tuples = vec![
        tuple("role:default_dev#has", "ALLOW_GET", "logs:_all_default"),
        tuple("role:default_dev#has", "ALLOW_DELETE", "logs:s1"),
        tuple("role:default_dev#has", "ALLOW_ALL", "logsx:s2"),
        tuple("role:default_dev#has", "ALLOW_POST", "dashboard:d1"),
    ];
    let entries = get_role_permissions("logs", &tuples);
    let got: Vec<(&str, &str)> = entries.iter().map(|e| (e.object.as_str(), e.permission.as_str())).collect();
    assert_eq!(got, vec![("logs:_all_default", "AllowGet"), ("logs:s1", "AllowDelete")]);
}

#[test]
fn user_assignment_tuples() {
    let keys = role_user_tuples("default", "dev", &vec!["a@x".to_string(), "b@x".to_string()]);
    assert_eq!(keys.len(), 2);
    assert_eq!(keys[1].user, "user:b@x");
    assert_eq!(keys[1].relation, "assigned");
    assert_eq!(keys[1].object, "role:default_dev");
}

#[test]
fn permitted_filter_ignores_case() {
    let all = vec!["alpha".to_string(), "beta".to_string()];
    assert_eq!(filter_permitted(all.clone(), &None), all);
    assert_eq!(filter_permitted(all, &Some(vec!["BETA".to_string()])), vec!["beta".to_string()]);
}
