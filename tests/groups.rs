use visdata_rebac::error::Error;
use visdata_rebac::groups::{
    create_group, delete_group, get_group, get_user_groups, get_user_roles, group_members_filter,
    group_probe_filter, group_role_tuples, group_roles_filter, group_user_tuples, group_users,
    list_groups, needs_probe, org_roles_of, user_direct_roles_filter, user_groups_filter,
};
use visdata_rebac::roles::capitalize;
use visdata_rebac::types::{Tuple, TupleKey};

fn tuple(u: &str, r: &str, o: &str) -> Tuple {
    Tuple { key: TupleKey::new(u, r, o), timestamp: None }
}

#[test]
fn groups_test_capitalize() {
    assert_eq!(capitalize("developers"), "Developers");
    assert_eq!(capitalize(""), "");
}

#[test]
fn groups_test_function_signatures_exist() {
    let _ = create_group;
    let _ = delete_group;
    let _ = list_groups;
    let _ = get_group;
    let _ = get_user_groups;
    let _ = group_user_tuples;
}

#[test]
fn duplicate_groups_are_refused() {
    let existing = vec!["devs".to_string()];
    assert!(matches!(create_group("o", "DEVS", &existing), Err(Error::DuplicateEntry(_))));
    let k = create_group("o", "ops", &existing).unwrap();
    assert_eq!(k.user, "org:o");
    assert_eq!(k.relation, "owningOrg");
    assert_eq!(k.object, "group:o_ops");
}

#[test]
fn listing_groups_joins_owned_and_populated() {
    let tuples = vec![
        tuple("org:o", "owningOrg", "group:o_empty"),
        tuple("user:a@x", "member", "group:o_legacy"),
        tuple("user:b@x", "member", "group:o_empty"),
        tuple("org:p", "owningOrg", "group:o_foreign"),
        tuple("user:a@x", "member", "group:p_other"),
    ];
    assert_eq!(list_groups("o", &tuples), vec!["empty".to_string(), "legacy".to_string()]);
}

#[test]
fn group_details_and_missing_groups() {
    let members = vec![tuple("user:a@x", "member", "group:o_g"), tuple("group:o_h#member", "member", "group:o_g")];
    let roles = vec![tuple("group:o_g", "grp_assigned", "role:o_dev"), tuple("group:o_g", "grp_assigned", "role:p_x")];
    let users = group_users(&members);
    let role_names = org_roles_of("o", &roles);
    assert_eq!(users, vec!["a@x".to_string()]);
    assert_eq!(role_names, vec!["dev".to_string()]);
    assert!(!needs_probe(&users, &role_names));
    let g = get_group("g", users, role_names, &vec![]).unwrap();
    assert_eq!(g.name, "g");
    assert_eq!(g.display_name.as_deref(), Some("G"));
    assert_eq!(g.id.len(), 27);
    assert_eq!(g.created_at, g.updated_at);
    assert!(needs_probe(&vec![], &vec![]));
    match get_group("ghost", vec![], vec![], &vec![]) {
        Err(Error::GroupNotFound(n)) => assert_eq!(n, "ghost"),
        _ => panic!("expected GroupNotFound"),
    }
    let probe = vec![tuple("org:o", "owningOrg", "group:o_empty")];
    assert!(get_group("empty", vec![], vec![], &probe).is_ok());
}

#[test]
fn group_reads_and_writes() {
    let f = group_members_filter("o", "g");
    assert_eq!((f.user.as_deref(), f.relation.as_deref(), f.object.as_deref()), (None, Some("member"), Some("group:o_g")));
    let f = group_roles_filter("o", "g");
    assert_eq!((f.user.as_deref(), f.relation.as_deref(), f.object.as_deref()), (Some("group:o_g"), Some("grp_assigned"), None));
    let f = group_probe_filter("o", "g");
    assert_eq!(f.object.as_deref(), Some("group:o_g"));
    let (a, b, c) = delete_group("o", "g");
    assert_eq!(a.object.as_deref(), Some("group:o_g"));
    assert_eq!((b.user.as_deref(), b.relation.as_deref(), b.object.as_deref()), (Some("group:o_g"), None, None));
    assert_eq!(c.user.as_deref(), Some("group:o_g#member"));
    let f = user_groups_filter("a@x");
    assert_eq!((f.user.as_deref(), f.relation.as_deref()), (Some("user:a@x"), Some("member")));
    let f = user_direct_roles_filter("a@x");
    assert_eq!((f.user.as_deref(), f.relation.as_deref()), (Some("user:a@x"), Some("assigned")));
    let k = group_role_tuples("o", "g", &vec!["dev".to_string()]);
    assert_eq!((k[0].user.as_str(), k[0].relation.as_str(), k[0].object.as_str()), ("group:o_g", "grp_assigned", "role:o_dev"));
    let k = group_user_tuples("o", "g", &vec!["a@x".to_string()]);
    assert_eq!((k[0].user.as_str(), k[0].relation.as_str(), k[0].object.as_str()), ("user:a@x", "member", "group:o_g"));
}

#[test]
fn user_roles_union_direct_and_group_roles() {
    let direct = vec![tuple("user:a@x", "assigned", "role:o_zeta"), tuple("user:a@x", "assigned", "role:p_other")];
    let memberships = vec![tuple("user:a@x", "member", "group:o_g1"), tuple("user:a@x", "member", "group:p_g2")];
    assert_eq!(get_user_groups("o", &memberships), vec!["g1".to_string()]);
    let via = vec![
        tuple("group:o_g1", "grp_assigned", "role:o_alpha"),
        tuple("group:o_g1", "grp_assigned", "role:o_zeta"),
    ];
    assert_eq!(get_user_roles("o", &direct, &via), vec!["alpha".to_string(), "zeta".to_string()]);
    assert!(get_user_roles("o", &vec![], &vec![]).is_empty());
}
