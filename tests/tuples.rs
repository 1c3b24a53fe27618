use visdata_rebac::tuples::{
    get_add_user_to_org_tuples, get_delete_all_user_from_org_tuples, get_delete_user_from_org_tuples,
    get_delete_user_system_role_tuples, get_group_member_tuple, get_group_role_tuple,
    get_new_user_creation_tuple, get_org_creation_tuples, get_org_resource_permission_tuple,
    get_ownership_tuple, get_resource_parent_tuple, get_role_key, get_service_account_creation_tuple,
    get_user_crole_removal_tuples, get_user_crole_tuple, role_to_fga_relation, update_user_role,
};
use visdata_rebac::types::TupleKey;

#[test]
fn test_get_add_user_to_org_tuples() {
    let mut tuples = Vec::new();
    get_add_user_to_org_tuples("default", "alice@example.com", "admin", &mut tuples);

    assert_eq!(tuples.len(), 2);
    assert_eq!(tuples[0].user, "user:alice@example.com");
    assert_eq!(tuples[0].relation, "admin");
    assert_eq!(tuples[0].object, "org:default");
    assert_eq!(tuples[1].user, "user:alice@example.com");
    assert_eq!(tuples[1].relation, "org_context");
    assert_eq!(tuples[1].object, "org:default");
}

#[test]
fn test_get_user_crole_tuple() {
    let tuple = get_user_crole_tuple("default", "developer", "bob@example.com");

    assert_eq!(tuple.user, "user:bob@example.com");
    assert_eq!(tuple.relation, "assigned");
    assert_eq!(tuple.object, "role:default_developer");
}

#[test]
fn test_get_group_member_tuple() {
    let tuple = get_group_member_tuple("default", "developers", "alice@example.com");

    assert_eq!(tuple.user, "user:alice@example.com");
    assert_eq!(tuple.relation, "member");
    assert_eq!(tuple.object, "group:default_developers");
}

#[test]
fn test_role_to_fga_relation() {
    assert_eq!(role_to_fga_relation("Admin"), "admin");
    assert_eq!(role_to_fga_relation("admin"), "admin");
    assert_eq!(role_to_fga_relation("Root"), "admin");
    assert_eq!(role_to_fga_relation("Editor"), "editor");
    assert_eq!(role_to_fga_relation("Viewer"), "viewer");
    assert_eq!(role_to_fga_relation("User"), "allowed_user");
    assert_eq!(role_to_fga_relation("ServiceAccount"), "allowed_user");
}

#[test]
fn test_get_add_user_to_org_tuples_with_editor() {
    let mut tuples = Vec::new();
    get_add_user_to_org_tuples("myorg", "bob@example.com", "Editor", &mut tuples);

    assert_eq!(tuples.len(), 2);
    assert_eq!(tuples[0].relation, "editor");
    assert_eq!(tuples[1].relation, "org_context");
}

#[test]
fn test_get_add_user_to_org_tuples_with_viewer() {
    let mut tuples = Vec::new();
    get_add_user_to_org_tuples("myorg", "carol@example.com", "Viewer", &mut tuples);

    assert_eq!(tuples.len(), 2);
    assert_eq!(tuples[0].relation, "viewer");
    assert_eq!(tuples[1].relation, "org_context");
}

#[test]
fn test_get_delete_all_user_from_org_tuples() {
    let mut tuples = Vec::new();
    get_delete_all_user_from_org_tuples("default", "alice@example.com", &mut tuples);

    assert_eq!(tuples.len(), 5);
    let relations: Vec<&str> = tuples.iter().map(|t| t.relation.as_str()).collect();
    assert!(relations.contains(&"admin"));
    assert!(relations.contains(&"editor"));
    assert!(relations.contains(&"viewer"));
    assert!(relations.contains(&"allowed_user"));
    assert!(relations.contains(&"org_context"));
}

fn triple(t: &TupleKey) -> (&str, &str, &str) {
    (t.user.as_str(), t.relation.as_str(), t.object.as_str())
}

#[test]
fn add_editor_to_default_org_yields_exactly_two_tuples() {
    let mut tuples = Vec::new();
    get_add_user_to_org_tuples("default", "alice@example.com", "Editor", &mut tuples);
    let got: Vec<(&str, &str, &str)> = tuples.iter().map(triple).collect();
    assert_eq!(
        got,
        vec![
            ("user:alice@example.com", "editor", "org:default"),
            ("user:alice@example.com", "org_context", "org:default"),
        ]
    );
}

#[test]
fn unknown_roles_map_to_allowed_user() {
    assert_eq!(role_to_fga_relation("service account"), "allowed_user");
    assert_eq!(role_to_fga_relation(""), "allowed_user");
    assert_eq!(role_to_fga_relation("ROOT"), "admin");
}

#[test]
fn appended_tuples_keep_existing_ones() {
    let mut tuples = vec![TupleKey::new("a", "b", "c")];
    get_service_account_creation_tuple("o", "sa@x", &mut tuples);
    assert_eq!(tuples.len(), 3);
    assert_eq!(triple(&tuples[0]), ("a", "b", "c"));
    assert_eq!(triple(&tuples[1]), ("user:sa@x", "allowed_user", "org:o"));
    assert_eq!(triple(&tuples[2]), ("user:sa@x", "org_context", "org:o"));
}

#[test]
fn new_user_joins_default_org() {
    let mut tuples = Vec::new();
    get_new_user_creation_tuple("n@x", None, &mut tuples);
    assert_eq!(triple(&tuples[0]), ("user:n@x", "allowed_user", "org:default"));
    let mut tuples = Vec::new();
    get_new_user_creation_tuple("n@x", Some("acme"), &mut tuples);
    assert_eq!(triple(&tuples[1]), ("user:n@x", "org_context", "org:acme"));
}

#[test]
fn role_aware_removal_deletes_one_relation_and_context() {
    let mut tuples = Vec::new();
    get_delete_user_system_role_tuples("o", "u@x", "Viewer", &mut tuples);
    assert_eq!(triple(&tuples[0]), ("user:u@x", "viewer", "org:o"));
    assert_eq!(triple(&tuples[1]), ("user:u@x", "org_context", "org:o"));
    assert_eq!(tuples.len(), 2);
}

#[test]
fn role_change_is_a_delete_and_a_write() {
    let (writes, deletes) = update_user_role("o", "u@x", "Admin", "viewer");
    assert_eq!(writes.len(), 1);
    assert_eq!(deletes.len(), 1);
    assert_eq!(triple(&writes[0]), ("user:u@x", "viewer", "org:o"));
    assert_eq!(triple(&deletes[0]), ("user:u@x", "admin", "org:o"));
    let (writes, deletes) = update_user_role("o", "u@x", "root", "Admin");
    assert!(writes.is_empty() && deletes.is_empty());
}

#[test]
fn org_and_resource_tuples() {
    let mut tuples = Vec::new();
    get_org_creation_tuples("acme", &mut tuples);
    assert_eq!(triple(&tuples[0]), ("org:acme", "member", "org:acme"));
    let t = get_ownership_tuple("acme", "dashboard", "d1", "o@x");
    assert_eq!(triple(&t), ("user:o@x", "owner", "dashboard:d1"));
    let t = get_resource_parent_tuple("acme", "dashboard", "d1");
    assert_eq!(triple(&t), ("org:acme", "parent", "dashboard:d1"));
    let t = get_group_role_tuple("acme", "devs", "dev");
    assert_eq!(triple(&t), ("group:acme_devs", "grp_assigned", "role:acme_dev"));
    assert_eq!(get_role_key("acme", "dev"), "role:acme_dev");
    let mut tuples = Vec::new();
    get_user_crole_removal_tuples("u@x", "role:acme_dev", &mut tuples);
    assert_eq!(triple(&tuples[0]), ("user:u@x", "assigned", "role:acme_dev"));
    let mut tuples = Vec::new();
    get_delete_user_from_org_tuples("acme", "u@x", &mut tuples);
    let rels: Vec<&str> = tuples.iter().map(|t| t.relation.as_str()).collect();
    assert_eq!(rels, vec!["owner", "admin", "member"]);
}

#[test]
fn org_wide_permission_tuple_maps_names() {
    let t = get_org_resource_permission_tuple("acme", "logs", "dev", "AllowList");
    assert_eq!(triple(&t), ("role:acme_dev#has", "ALLOW_LIST", "logs:_all_acme"));
    let t = get_org_resource_permission_tuple("acme", "logs", "dev", "can_delete");
    assert_eq!(t.relation, "ALLOW_DELETE");
    let t = get_org_resource_permission_tuple("acme", "logs", "dev", "weird");
    assert_eq!(t.relation, "ALLOW_GET");
}
