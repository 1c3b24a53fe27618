use visdata_rebac::codec::{is_all_org_entity, parse_object};
use visdata_rebac::resources::{
    get_all_resources, get_child_resources, get_resource, get_top_level_resources,
    is_valid_resource_type, resource_types,
};

#[test]
fn test_resource_types_count() {
    assert!(resource_types().len() >= 30);
}

#[test]
fn test_core_types_exist() {
    assert!(is_valid_resource_type("user"));
    assert!(is_valid_resource_type("group"));
    assert!(is_valid_resource_type("role"));
    assert!(is_valid_resource_type("org"));
}

#[test]
fn resources_test_stream_hierarchy() {
    assert!(is_valid_resource_type("stream"));
    assert!(is_valid_resource_type("logs"));
    assert!(is_valid_resource_type("metrics"));
    assert!(is_valid_resource_type("traces"));
    assert!(is_valid_resource_type("index"));

    let logs = get_resource("logs").unwrap();
    assert_eq!(logs.parent.as_deref(), Some("stream"));
}

#[test]
fn resources_test_dashboard_hierarchy() {
    assert!(is_valid_resource_type("dfolder"));
    assert!(is_valid_resource_type("dashboard"));

    let dashboard = get_resource("dashboard").unwrap();
    assert_eq!(dashboard.parent.as_deref(), Some("dfolder"));
}

#[test]
fn test_alert_hierarchy() {
    assert!(is_valid_resource_type("afolder"));
    assert!(is_valid_resource_type("alert"));
    assert!(is_valid_resource_type("destination"));

    let alert = get_resource("alert").unwrap();
    assert_eq!(alert.parent.as_deref(), Some("afolder"));
}

#[test]
fn test_report_hierarchy() {
    assert!(is_valid_resource_type("rfolder"));
    assert!(is_valid_resource_type("report"));

    let report = get_resource("report").unwrap();
    assert_eq!(report.parent.as_deref(), Some("rfolder"));
}

#[test]
fn test_get_all_resources() {
    let resources = get_all_resources();
    assert!(!resources.is_empty());
    for i in 1..resources.len() {
        assert!(resources[i - 1].order <= resources[i].order);
    }
}

#[test]
fn test_get_top_level_resources() {
    let resources = get_top_level_resources();
    assert!(!resources.is_empty());
    for r in resources {
        assert!(r.parent.is_none());
    }
}

#[test]
fn resources_test_get_child_resources() {
    let children = get_child_resources("stream");
    assert!(!children.is_empty());
    assert!(children.iter().any(|r| r.key == "logs"));
    assert!(children.iter().any(|r| r.key == "metrics"));
    assert!(children.iter().any(|r| r.key == "traces"));
}

#[test]
fn test_parse_object() {
    let result = parse_object("logs:my_stream");
    assert_eq!(result, Some(("logs", "my_stream")));

    let result = parse_object("dashboard:folder/dash1");
    assert_eq!(result, Some(("dashboard", "folder/dash1")));
}

#[test]
fn test_is_all_org_entity() {
    assert!(is_all_org_entity("_all_org123", "org123"));
    assert!(is_all_org_entity("_all", "org123"));
    assert!(is_all_org_entity("_all_default", "default"));
    assert!(!is_all_org_entity("my_stream", "org123"));
}

#[test]
fn parse_object_splits_on_first_colon_only() {
    assert_eq!(parse_object("a:b:c"), Some(("a", "b:c")));
    assert_eq!(parse_object("no-colon"), None);
    assert_eq!(parse_object(":x"), Some(("", "x")));
}

#[test]
fn wildcard_prefix_is_permissive() {
    assert!(is_all_org_entity("_allsorts", "default"));
    assert!(is_all_org_entity("_all", "anything"));
    assert!(!is_all_org_entity("all_default", "default"));
    assert!(!is_all_org_entity("", "default"));
}

#[test]
fn unknown_resource_is_absent() {
    assert!(get_resource("nope").is_none());
    assert!(!is_valid_resource_type("nope"));
    assert!(is_valid_resource_type("templates"));
}

#[test]
fn selections_keep_exactly_their_entries() {
    let all = get_all_resources();
    assert!(all.iter().all(|r| r.visible));
    assert!(!all.iter().any(|r| r.key == "stream"));
    let visible_in_table = resource_types().iter().filter(|r| r.visible).count();
    assert_eq!(all.len(), visible_in_table);
    let top = get_top_level_resources();
    assert!(top.iter().all(|r| r.top_level && r.visible));
    for i in 1..top.len() {
        assert!(top[i - 1].order <= top[i].order);
    }
    let children = get_child_resources("stream");
    assert_eq!(children.len(), 5);
    let keys: Vec<&str> = children.iter().map(|r| r.key.as_str()).collect();
    assert_eq!(keys, vec!["logs", "metrics", "traces", "metadata", "index"]);
    assert!(get_child_resources("nothing").is_empty());
}
