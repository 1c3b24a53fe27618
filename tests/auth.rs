use std::collections::HashSet;
use visdata_rebac::auth::{GroupRequest, O2EntityAuthorization, Permission, RoleRequest};

#[test]
fn auth_test_permission_to_relation() {
    assert_eq!(Permission::AllowAll.to_relation(), "ALLOW_ALL");
    assert_eq!(Permission::AllowGet.to_relation(), "ALLOW_GET");
    assert_eq!(Permission::AllowList.to_relation(), "ALLOW_LIST");
    assert_eq!(Permission::AllowPost.to_relation(), "ALLOW_POST");
    assert_eq!(Permission::AllowPut.to_relation(), "ALLOW_PUT");
    assert_eq!(Permission::AllowDelete.to_relation(), "ALLOW_DELETE");
}

#[test]
fn auth_test_permission_from_method() {
    assert_eq!(Permission::from_method("GET", false), Permission::AllowGet);
    assert_eq!(Permission::from_method("GET", true), Permission::AllowList);
    assert_eq!(Permission::from_method("POST", false), Permission::AllowPost);
    assert_eq!(Permission::from_method("PUT", false), Permission::AllowPut);
    assert_eq!(Permission::from_method("DELETE", false), Permission::AllowDelete);
}

#[test]
fn test_permission_from_str() {
    assert_eq!(Permission::from_str("AllowAll"), Some(Permission::AllowAll));
    assert_eq!(Permission::from_str("allow_get"), Some(Permission::AllowGet));
    assert_eq!(Permission::from_str("can_read"), Some(Permission::AllowGet));
    assert_eq!(Permission::from_str("invalid"), None);
}

#[test]
fn test_entity_authorization() {
    let auth = O2EntityAuthorization::new("logs:my_stream", Permission::AllowGet);
    assert_eq!(auth.resource_type(), Some("logs"));
    assert_eq!(auth.entity_id(), Some("my_stream"));
}

#[test]
fn test_role_request() {
    let request = RoleRequest::new().with_add(O2EntityAuthorization::new("logs:test", Permission::AllowGet));

    assert!(!request.is_empty());
    assert_eq!(request.add.len(), 1);
}

#[test]
fn entity_segments_without_and_with_extra_colons() {
    let auth = O2EntityAuthorization::new("nocolon", Permission::AllowAll);
    assert_eq!(auth.resource_type(), Some("nocolon"));
    assert_eq!(auth.entity_id(), None);
    let auth = O2EntityAuthorization::new("a:b:c", Permission::AllowAll);
    assert_eq!(auth.resource_type(), Some("a"));
    assert_eq!(auth.entity_id(), Some("b"));
}

#[test]
fn internal_relations_and_all() {
    assert_eq!(Permission::AllowAll.to_internal_relation(), "admin");
    assert_eq!(Permission::AllowDelete.to_internal_relation(), "can_delete");
    assert_eq!(Permission::all().len(), 6);
    assert_eq!(Permission::all()[0], Permission::AllowAll);
    assert_eq!(Permission::from_method("patch", false), Permission::AllowPut);
    assert_eq!(Permission::from_method("OPTIONS", true), Permission::AllowGet);
    assert_eq!(Permission::AllowPut.name(), "AllowPut");
}

#[test]
fn requests_are_empty_until_something_changes() {
    assert!(RoleRequest::new().is_empty());
    let empty: HashSet<String> = HashSet::new();
    assert!(RoleRequest::new().with_add_users(empty.clone()).is_empty());
    let mut one = HashSet::new();
    one.insert("a@x".to_string());
    assert!(!RoleRequest::new().with_remove_users(one.clone()).is_empty());
    assert!(GroupRequest::new().is_empty());
    let mut g = GroupRequest::new();
    g.add_roles = Some(one);
    assert!(!g.is_empty());
    let r = RoleRequest::new().with_remove(O2EntityAuthorization::new("logs:x", Permission::AllowGet));
    assert_eq!(r.remove.len(), 1);
}
