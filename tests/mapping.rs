use visdata_rebac::mapping::{
    get_child_resources, get_resource, get_top_level_resources, get_visible_resources,
    is_non_cloud_resource, is_valid_resource_type, non_cloud_resource_keys, ofga_models,
};

#[test]
fn test_ofga_models_contains_required_types() {
    assert!(is_valid_resource_type("user"));
    assert!(is_valid_resource_type("group"));
    assert!(is_valid_resource_type("role"));
    assert!(is_valid_resource_type("org"));
    assert!(is_valid_resource_type("logs"));
    assert!(is_valid_resource_type("dashboard"));
    assert!(is_valid_resource_type("alert"));
}

#[test]
fn mapping_test_stream_hierarchy() {
    let logs = get_resource("logs").unwrap();
    assert_eq!(logs.parent.as_deref(), Some("stream"));

    let metrics = get_resource("metrics").unwrap();
    assert_eq!(metrics.parent.as_deref(), Some("stream"));

    let traces = get_resource("traces").unwrap();
    assert_eq!(traces.parent.as_deref(), Some("stream"));
}

#[test]
fn mapping_test_dashboard_hierarchy() {
    let dashboard = get_resource("dashboard").unwrap();
    assert_eq!(dashboard.parent.as_deref(), Some("dfolder"));
}

#[test]
fn test_get_visible_resources() {
    let visible = get_visible_resources();
    assert!(!visible.is_empty());
    assert!(!visible.iter().any(|r| r.key == "stream"));
}

#[test]
fn mapping_test_get_child_resources() {
    let stream_children = get_child_resources("stream");
    assert!(!stream_children.is_empty());
    assert!(stream_children.iter().any(|r| r.key == "logs"));
    assert!(stream_children.iter().any(|r| r.key == "metrics"));
    assert!(stream_children.iter().any(|r| r.key == "traces"));
}

#[test]
fn test_non_cloud_resources() {
    let keys = non_cloud_resource_keys();
    assert!(keys.contains(&"license"));
    assert!(keys.contains(&"cipher_keys"));
    assert!(!keys.contains(&"logs"));
    assert!(is_non_cloud_resource("license"));
    assert!(!is_non_cloud_resource("logs"));
}

#[test]
fn models_have_no_legacy_aliases() {
    assert_eq!(ofga_models().len(), 36);
    assert!(!is_valid_resource_type("templates"));
    let top = get_top_level_resources();
    assert!(top.iter().all(|r| r.parent.is_none()));
    for i in 1..top.len() {
        assert!(top[i - 1].order <= top[i].order);
    }
}
