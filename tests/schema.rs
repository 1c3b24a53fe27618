use visdata_rebac::codec::{
    get_fga_type, get_initial_tuples, group_type, org_type, resource_object, resource_object_all,
    role_type, user_type,
};
use visdata_rebac::schema::get_authorization_model_json;

#[test]
fn test_authorization_model_is_valid_json() {
    let model = get_authorization_model_json();
    let parsed: serde_json::Value = serde_json::from_str(&model).unwrap();
    assert!(parsed.get("schema_version").is_some());
    assert!(parsed.get("type_definitions").is_some());
}

#[test]
fn test_type_generation() {
    assert_eq!(org_type("default"), "org:default");
    assert_eq!(user_type("alice@example.com"), "user:alice@example.com");
    assert_eq!(role_type("default", "admin"), "role:default_admin");
    assert_eq!(group_type("default", "developers"), "group:default_developers");
    assert_eq!(resource_object("default", "logs", "my_stream"), "logs:my_stream");
    assert_eq!(resource_object_all("default", "dfolder"), "dfolder:_all_default");
}

#[test]
fn test_initial_tuples_not_empty() {
    let tuples = get_initial_tuples();
    assert!(!tuples.is_empty());
    assert!(tuples.iter().any(|t| t.user.contains("root@visdata.com")));
    assert!(tuples.iter().any(|t| t.user == "org:default" || t.object.contains("default")));
    assert!(tuples.iter().any(|t| t.user == "org:_meta" || t.object.contains("_meta")));
}

#[test]
fn initial_tuples_hold_the_bootstrap_grants() {
    let tuples = get_initial_tuples();
    assert_eq!(tuples.len(), 94);
    assert_eq!(tuples[1].user, "user:root@visdata.com");
    assert_eq!(tuples[1].relation, "admin");
    assert_eq!(tuples[1].object, "org:default");
    assert!(tuples
        .iter()
        .any(|t| t.user == "stream:_all__meta" && t.relation == "parent" && t.object == "logs:_all__meta"));
    assert!(tuples
        .iter()
        .any(|t| t.user == "dfolder:_all_default" && t.relation == "selfParent" && t.object == "dfolder:default"));
}

#[test]
fn fga_type_names_org_and_key() {
    assert_eq!(get_fga_type("default", "logs"), "org_default_logs");
}

#[test]
fn model_defines_every_catalog_type() {
    let model = get_authorization_model_json();
    let parsed: serde_json::Value = serde_json::from_str(&model).unwrap();
    let defs = parsed.get("type_definitions").unwrap().as_array().unwrap();
    let names: Vec<&str> = defs.iter().map(|d| d.get("type").unwrap().as_str().unwrap()).collect();
    for t in ["user", "org", "group", "role", "logs", "dashboard", "syslog-route", "license"] {
        assert!(names.contains(&t), "{}", t);
    }
}
