use visdata_rebac::codec::{is_all_org_entity, parse_object};
use visdata_rebac::groups::{
    delete_group,
    get_user_groups, get_user_roles, group_role_tuples, group_roles_filter, group_user_tuples,
    user_direct_roles_filter, user_groups_filter,
};
use visdata_rebac::roles::{
    create_role, get_role_permissions, get_role_users, list_roles, role_permission_tuples,
    role_permissions_filter, role_user_tuples, role_users_filter,
};
use visdata_rebac::store::{delete_org_tuples, filter_tuples, split_filter, tuple_keys, write_request};
use visdata_rebac::types::{Permission, PermissionEntry, Tuple, TupleKey, TupleKeyFilter};

/// An in-memory tuple store that applies write requests and equality-filtered reads.
struct MemoryStore {
    tuples: Vec<Tuple>,
    reads: Vec<TupleKeyFilter>,
}

impl MemoryStore {
    fn new() -> Self {
        MemoryStore { tuples: Vec::new(), reads: Vec::new() }
    }

    fn write(&mut self, writes: Vec<TupleKey>, deletes: Vec<TupleKey>) {
        if let Some(req) = write_request(writes, deletes, &None) {
            if let Some(ws) = req.writes {
                for k in ws.tuple_keys {
                    if !self.tuples.iter().any(|t| t.key == k) {
                        self.tuples.push(Tuple { key: k, timestamp: None });
                    }
                }
            }
            if let Some(ds) = req.deletes {
                self.tuples.retain(|t| !ds.tuple_keys.contains(&t.key));
            }
        }
    }

    fn read(&mut self, filter: Option<TupleKeyFilter>) -> Vec<Tuple> {
        if let Some(f) = &filter {
            self.reads.push(f.clone());
        }
        let (_, memory) = split_filter(filter.clone());
        let f = memory.or(filter).unwrap_or_default();
        filter_tuples(self.tuples.clone(), &f)
    }
}

#[test]
fn system_roles_fail_and_never_list() {
    let mut store = MemoryStore::new();
    store.write(
        vec![
            TupleKey::new("org:o", "owningOrg", "role:o_admin"),
            TupleKey::new("org:o", "owningOrg", "role:o_Viewer"),
            TupleKey::new("org:o", "owningOrg", "role:o_dev"),
        ],
        vec![],
    );
    let listed = list_roles("o", &store.read(None));
    assert_eq!(listed, vec!["dev".to_string()]);
    for name in ["admin", "editor", "viewer"] {
        assert!(create_role("o", name, &listed).is_err());
    }
}

#[test]
fn method_mapping_table() {
    let cases = [
        ("GET", true, Permission::AllowList),
        ("GET", false, Permission::AllowGet),
        ("POST", false, Permission::AllowPost),
        ("PUT", false, Permission::AllowPut),
        ("PATCH", true, Permission::AllowPut),
        ("DELETE", false, Permission::AllowDelete),
        ("HEAD", true, Permission::AllowGet),
    ];
    for (m, l, p) in cases {
        assert_eq!(Permission::from_method(m, l), p);
    }
    assert_eq!(Permission::from_str("ALLOWGET"), Some(Permission::AllowGet));
    assert!(Permission::AllowAll.implies(&Permission::AllowDelete));
    assert!(!Permission::AllowGet.implies(&Permission::AllowList));
    assert!(Permission::AllowGet.implies(&Permission::AllowGet));
}

#[test]
fn add_then_remove_users_leaves_role_empty() {
    let mut store = MemoryStore::new();
    let users = vec!["a@x".to_string(), "b@x".to_string()];
    store.write(role_user_tuples("o", "dev", &users), vec![]);
    let read = store.read(Some(role_users_filter("o", "dev")));
    assert_eq!(get_role_users(&read).len(), 2);
    store.write(vec![], role_user_tuples("o", "dev", &users));
    let read = store.read(Some(role_users_filter("o", "dev")));
    assert!(get_role_users(&read).is_empty());
}

fn user_roles(store: &mut MemoryStore, org: &str, user: &str) -> Vec<String> {
    let direct = store.read(Some(user_direct_roles_filter(user)));
    let memberships = store.read(Some(user_groups_filter(user)));
    let mut via = Vec::new();
    for g in get_user_groups(org, &memberships) {
        via.extend(store.read(Some(group_roles_filter(org, &g))));
    }
    get_user_roles(org, &direct, &via)
}

#[test]
fn group_roles_reach_members_until_an_edge_goes() {
    let mut store = MemoryStore::new();
    let roles = vec!["r".to_string()];
    let users = vec!["u@x".to_string()];
    store.write(group_role_tuples("o", "g", &roles), vec![]);
    store.write(group_user_tuples("o", "g", &users), vec![]);
    assert_eq!(user_roles(&mut store, "o", "u@x"), vec!["r".to_string()]);
    store.write(group_role_tuples("o", "g", &roles), vec![]);
    store.write(group_user_tuples("o", "g", &users), vec![]);
    assert_eq!(user_roles(&mut store, "o", "u@x"), vec!["r".to_string()]);
    store.write(vec![], group_user_tuples("o", "g", &users));
    assert!(user_roles(&mut store, "o", "u@x").is_empty());
    store.write(group_user_tuples("o", "g", &users), vec![]);
    store.write(vec![], group_role_tuples("o", "g", &roles));
    assert!(user_roles(&mut store, "o", "u@x").is_empty());
}

#[test]
fn parse_and_wildcard_examples() {
    assert_eq!(parse_object("logs:my_stream"), Some(("logs", "my_stream")));
    assert_eq!(parse_object("no-colon"), None);
    assert!(is_all_org_entity("_all_default", "default"));
    assert!(!is_all_org_entity("my_stream", "default"));
    assert!(is_all_org_entity("_all", "anything"));
}

#[test]
fn developer_role_with_get_on_all_logs() {
    let mut store = MemoryStore::new();
    let created = create_role("default", "developer", &vec![]).unwrap();
    store.write(vec![created], vec![]);
    let grants = vec![PermissionEntry {
        object: "logs:_all_default".to_string(),
        permission: "AllowGet".to_string(),
    }];
    store.write(role_permission_tuples("default", "developer", &grants), vec![]);
    let read = store.read(Some(role_permissions_filter("default", "developer")));
    let entries = get_role_permissions("logs", &read);
    assert_eq!(entries.len(), 1);
    assert_eq!(entries[0].object, "logs:_all_default");
    assert_eq!(entries[0].permission, "AllowGet");
}

#[test]
fn deleting_an_org_removes_its_tuples() {
    let mut store = MemoryStore::new();
    store.write(
        vec![
            TupleKey::new("user:a@x", "admin", "org:acme"),
            TupleKey::new("user:a@x", "org_context", "org:acme"),
            TupleKey::new("org:acme", "member", "org:acme"),
            TupleKey::new("user:b@x", "admin", "org:other"),
        ],
        vec![],
    );
    let filter = delete_org_tuples("acme");
    let found = store.read(Some(filter.clone()));
    assert_eq!(found.len(), 3);
    assert_eq!(store.reads.last().unwrap().object.as_deref(), Some("org:acme"));
    store.write(vec![], tuple_keys(&found));
    assert!(store.read(Some(filter)).is_empty());
    assert_eq!(store.tuples.len(), 1);
}

#[test]
fn deleting_a_group_removes_members_grants_and_userset_tuples() {
    let mut store = MemoryStore::new();
    store.write(
        vec![
            TupleKey::new("org:o", "owningOrg", "group:o_g"),
            TupleKey::new("user:a@x", "member", "group:o_g"),
            TupleKey::new("group:o_g", "grp_assigned", "role:o_dev"),
            TupleKey::new("group:o_g#member", "assigned", "role:o_ops"),
            TupleKey::new("group:o_h", "grp_assigned", "role:o_dev"),
        ],
        vec![],
    );
    let (on_group, grants, as_member) = delete_group("o", "g");
    let mut deletes = tuple_keys(&store.read(Some(on_group)));
    deletes.extend(tuple_keys(&store.read(Some(grants))));
    deletes.extend(tuple_keys(&store.read(Some(as_member))));
    store.write(vec![], deletes);
    assert_eq!(store.tuples.len(), 1);
    assert_eq!(store.tuples[0].key.user, "group:o_h");
}
