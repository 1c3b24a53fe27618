use visdata_rebac::checker::{decide, filter_listed_objects, is_allowed, list_objects_for_user, CheckPlan};
use visdata_rebac::error::Error;
use visdata_rebac::store::{delete_org_tuples, write_request};
use visdata_rebac::types::Permission;

#[test]
fn checker_test_permission_to_relation() {
    assert_eq!(Permission::AllowAll.to_relation(), "admin");
    assert_eq!(Permission::AllowGet.to_relation(), "can_read");
    assert_eq!(Permission::AllowList.to_relation(), "can_list");
    assert_eq!(Permission::AllowPost.to_relation(), "can_create");
    assert_eq!(Permission::AllowPut.to_relation(), "can_update");
    assert_eq!(Permission::AllowDelete.to_relation(), "can_delete");
}

#[test]
fn checker_test_permission_from_method() {
    assert_eq!(Permission::from_method("GET", false), Permission::AllowGet);
    assert_eq!(Permission::from_method("GET", true), Permission::AllowList);
    assert_eq!(Permission::from_method("POST", false), Permission::AllowPost);
    assert_eq!(Permission::from_method("PUT", false), Permission::AllowPut);
    assert_eq!(Permission::from_method("DELETE", false), Permission::AllowDelete);
}

#[test]
fn authz_test_function_signatures_exist() {
    let _ = is_allowed;
    let _ = decide;
    let _ = delete_org_tuples;
    let _ = write_request;
    let _ = list_objects_for_user;
}

fn checked(plan: &CheckPlan) -> (String, String, String) {
    match plan {
        CheckPlan::Check(k) => (k.user.clone(), k.relation.clone(), k.object.clone()),
        _ => panic!("expected a check"),
    }
}

#[test]
fn root_is_allowed_whatever_the_store_says() {
    for role in ["root", "Root", "ROOT", "rOoT"] {
        for object in ["logs:x", "no-colon", "unknown:x"] {
            let plan = is_allowed(true, "default", "u@x", "DELETE", object, role);
            assert!(matches!(plan, CheckPlan::Allow));
            assert!(decide(&plan, &None));
            assert!(decide(&plan, &Some(Ok(false))));
            assert!(decide(&plan, &Some(Err(Error::StoreNotFound))));
        }
    }
}

#[test]
fn disabled_checking_allows() {
    assert!(matches!(is_allowed(false, "o", "u", "GET", "bad", "viewer"), CheckPlan::Allow));
}

#[test]
fn malformed_or_unknown_objects_are_denied() {
    let plan = is_allowed(true, "o", "u", "GET", "no-colon", "viewer");
    assert!(matches!(plan, CheckPlan::Deny));
    assert!(!decide(&plan, &Some(Ok(true))));
    assert!(matches!(is_allowed(true, "o", "u", "GET", "widgets:1", "viewer"), CheckPlan::Deny));
}

#[test]
fn entity_and_listing_checks() {
    let plan = is_allowed(true, "default", "alice@x", "get", "logs:my_stream", "viewer");
    assert_eq!(
        checked(&plan),
        ("user:alice@x".to_string(), "can_read".to_string(), "logs:my_stream".to_string())
    );
    let plan = is_allowed(true, "default", "alice@x", "GET", "logs:_all_default", "viewer");
    assert_eq!(
        checked(&plan),
        ("user:alice@x".to_string(), "can_list".to_string(), "logs:_all_default".to_string())
    );
    let plan = is_allowed(true, "default", "alice@x", "PATCH", "dashboard:_all", "editor");
    assert_eq!(checked(&plan).1, "can_update");
    assert_eq!(checked(&plan).2, "dashboard:_all_default");
}

#[test]
fn store_errors_deny() {
    let plan = is_allowed(true, "o", "u", "POST", "alert:a1", "editor");
    assert!(decide(&plan, &Some(Ok(true))));
    assert!(!decide(&plan, &Some(Ok(false))));
    assert!(!decide(&plan, &Some(Err(Error::OpenFGA("500 - boom".to_string())))));
    assert!(!decide(&plan, &None));
}

#[test]
fn listing_plans() {
    assert!(list_objects_for_user(false, true, "u", "AllowList", "viewer").is_none());
    assert!(list_objects_for_user(true, true, "u", "AllowList", "Root").is_none());
    assert!(list_objects_for_user(true, false, "u", "AllowList", "viewer").is_none());
    let plan = list_objects_for_user(true, true, "u@x", "AllowList", "viewer").unwrap();
    assert_eq!(plan.user, "user:u@x");
    assert_eq!(plan.relation, "can_list");
    assert_eq!(plan.object_type, "resource");
    let plan = list_objects_for_user(true, true, "u@x", "bogus", "viewer").unwrap();
    assert_eq!(plan.relation, "can_read");
}

#[test]
fn listed_objects_are_scoped_and_stripped() {
    let objects = vec![
        "resource:default_dashboard_d1".to_string(),
        "resource:other_dashboard_d2".to_string(),
        "resource:default_alert_a1".to_string(),
        "resource:default_dashboard_d3".to_string(),
    ];
    let ids = filter_listed_objects("default", "dashboard", &objects);
    assert_eq!(ids, vec!["d1".to_string(), "d3".to_string()]);
}
