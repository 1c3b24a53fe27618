//! The resource-type models of the authorization schema: the catalog without legacy
//! aliases, with the same lookups and selections.
use crate::resources::{
    by_order, contains_in, find_in, lookup, push_resource, resource_views, rv, select_sorted,
    selected, ResourceView, Selection,
};
use crate::text::{owned, str_eq};
use vstd::prelude::*;

pub use crate::resources::Resource;

verus! {

/// The resource-type models.
pub open spec fn model_table() -> Seq<ResourceView> {
    seq![
        rv("user"@, "Users"@, None, 1, true, true),
        rv("group"@, "Groups"@, None, 2, true, true),
        rv("role"@, "Roles"@, None, 3, true, true),
        rv("org"@, "Organizations"@, None, 4, true, false),
        rv("stream"@, "Streams"@, None, 10, false, true),
        rv("logs"@, "Logs"@, Some("stream"@), 11, true, true),
        rv("metrics"@, "Metrics"@, Some("stream"@), 12, true, true),
        rv("traces"@, "Traces"@, Some("stream"@), 13, true, true),
        rv("metadata"@, "Metadata"@, Some("stream"@), 14, false, true),
        rv("index"@, "Index"@, Some("stream"@), 15, true, true),
        rv("dfolder"@, "Dashboard Folders"@, None, 20, true, true),
        rv("dashboard"@, "Dashboards"@, Some("dfolder"@), 21, true, true),
        rv("template"@, "Templates"@, None, 22, true, true),
        rv("savedviews"@, "Saved Views"@, None, 23, true, true),
        rv("afolder"@, "Alert Folders"@, None, 30, true, true),
        rv("alert"@, "Alerts"@, Some("afolder"@), 31, true, true),
        rv("destination"@, "Destinations"@, None, 32, true, true),
        rv("rfolder"@, "Report Folders"@, None, 40, true, true),
        rv("report"@, "Reports"@, Some("rfolder"@), 41, true, true),
        rv("function"@, "Functions"@, None, 50, true, true),
        rv("pipeline"@, "Pipelines"@, None, 51, true, true),
        rv("settings"@, "Settings"@, None, 60, true, false),
        rv("kv"@, "KV Store"@, None, 61, true, true),
        rv("enrichment_table"@, "Enrichment Tables"@, None, 62, true, true),
        rv("summary"@, "Summary"@, None, 63, true, true),
        rv("syslog-route"@, "Syslog Routes"@, None, 64, true, true),
        rv("passcode"@, "Passcodes"@, None, 70, true, true),
        rv("rumtoken"@, "RUM Tokens"@, None, 71, true, true),
        rv("service_accounts"@, "Service Accounts"@, None, 72, true, true),
        rv("cipher_keys"@, "Cipher Keys"@, None, 73, true, true),
        rv("search_jobs"@, "Search Jobs"@, None, 80, true, true),
        rv("action_scripts"@, "Action Scripts"@, None, 81, true, true),
        rv("ratelimit"@, "Rate Limits"@, None, 82, true, true),
        rv("ai"@, "AI"@, None, 83, true, false),
        rv("re_patterns"@, "Regex Patterns"@, None, 84, true, true),
        rv("license"@, "License"@, None, 90, true, false),
    ]
}

/// The resource-type models, one per key.
#[verifier::rlimit(100)]
pub fn ofga_models() -> (r: Vec<Resource>)
    ensures
        resource_views(r@) == model_table(),
{
    let mut v: Vec<Resource> = Vec::new();
    proof {
        assert(resource_views(v@) =~= Seq::<ResourceView>::empty());
    }
    push_resource(&mut v, "user", "Users", None, 1, true, true);
    push_resource(&mut v, "group", "Groups", None, 2, true, true);
    push_resource(&mut v, "role", "Roles", None, 3, true, true);
    push_resource(&mut v, "org", "Organizations", None, 4, true, false);
    push_resource(&mut v, "stream", "Streams", None, 10, false, true);
    push_resource(&mut v, "logs", "Logs", Some("stream"), 11, true, true);
    push_resource(&mut v, "metrics", "Metrics", Some("stream"), 12, true, true);
    push_resource(&mut v, "traces", "Traces", Some("stream"), 13, true, true);
    push_resource(&mut v, "metadata", "Metadata", Some("stream"), 14, false, true);
    push_resource(&mut v, "index", "Index", Some("stream"), 15, true, true);
    push_resource(&mut v, "dfolder", "Dashboard Folders", None, 20, true, true);
    push_resource(&mut v, "dashboard", "Dashboards", Some("dfolder"), 21, true, true);
    push_resource(&mut v, "template", "Templates", None, 22, true, true);
    push_resource(&mut v, "savedviews", "Saved Views", None, 23, true, true);
    push_resource(&mut v, "afolder", "Alert Folders", None, 30, true, true);
    push_resource(&mut v, "alert", "Alerts", Some("afolder"), 31, true, true);
    push_resource(&mut v, "destination", "Destinations", None, 32, true, true);
    push_resource(&mut v, "rfolder", "Report Folders", None, 40, true, true);
    push_resource(&mut v, "report", "Reports", Some("rfolder"), 41, true, true);
    push_resource(&mut v, "function", "Functions", None, 50, true, true);
    push_resource(&mut v, "pipeline", "Pipelines", None, 51, true, true);
    push_resource(&mut v, "settings", "Settings", None, 60, true, false);
    push_resource(&mut v, "kv", "KV Store", None, 61, true, true);
    push_resource(&mut v, "enrichment_table", "Enrichment Tables", None, 62, true, true);
    push_resource(&mut v, "summary", "Summary", None, 63, true, true);
    push_resource(&mut v, "syslog-route", "Syslog Routes", None, 64, true, true);
    push_resource(&mut v, "passcode", "Passcodes", None, 70, true, true);
    push_resource(&mut v, "rumtoken", "RUM Tokens", None, 71, true, true);
    push_resource(&mut v, "service_accounts", "Service Accounts", None, 72, true, true);
    push_resource(&mut v, "cipher_keys", "Cipher Keys", None, 73, true, true);
    push_resource(&mut v, "search_jobs", "Search Jobs", None, 80, true, true);
    push_resource(&mut v, "action_scripts", "Action Scripts", None, 81, true, true);
    push_resource(&mut v, "ratelimit", "Rate Limits", None, 82, true, true);
    push_resource(&mut v, "ai", "AI", None, 83, true, false);
    push_resource(&mut v, "re_patterns", "Regex Patterns", None, 84, true, true);
    push_resource(&mut v, "license", "License", None, 90, true, false);    v
}

/// The keys of resources that cloud deployments do not offer.
pub open spec fn is_non_cloud_key(key: Seq<char>) -> bool {
    key == "license"@ || key == "cipher_keys"@
}

/// The keys of resources that cloud deployments do not offer.
pub fn non_cloud_resource_keys() -> (r: Vec<&'static str>)
    ensures
        r@.len() == 2,
        r@[0]@ == "license"@,
        r@[1]@ == "cipher_keys"@,
{
    let mut v: Vec<&'static str> = Vec::new();
    v.push("license");
    v.push("cipher_keys");
    v
}

/// Whether cloud deployments leave out the resource `key`.
pub fn is_non_cloud_resource(key: &str) -> (r: bool)
    ensures
        r == is_non_cloud_key(key@),
{
    str_eq(key, "license") || str_eq(key, "cipher_keys")
}

/// The model for `key`.
pub fn get_resource(key: &str) -> (r: Option<Resource>)
    ensures
        r matches Some(x) ==> lookup(model_table(), key@) == Some(x@),
        r is None ==> lookup(model_table(), key@) is None,
{
    let table = ofga_models();
    find_in(&table, key)
}

/// Whether `key` names a model.
pub fn is_valid_resource_type(key: &str) -> (r: bool)
    ensures
        r == (lookup(model_table(), key@) is Some),
{
    let table = ofga_models();
    contains_in(&table, key)
}

/// The visible models, sorted by display order.
pub fn get_visible_resources() -> (r: Vec<Resource>)
    ensures
        by_order(resource_views(r@)),
        resource_views(r@).to_multiset() == model_table().filter(|x: ResourceView| x.visible).to_multiset(),
{
    let table = ofga_models();
    let sel = Selection::Visible;
    let r = select_sorted(&table, &sel);
    proof {
        assert((|x: ResourceView| selected(sel, x)) =~= (|x: ResourceView| x.visible));
    }
    r
}

/// The visible models without a parent, sorted by display order.
pub fn get_top_level_resources() -> (r: Vec<Resource>)
    ensures
        by_order(resource_views(r@)),
        resource_views(r@).to_multiset() == model_table().filter(|x: ResourceView| x.top_level && x.visible).to_multiset(),
{
    let table = ofga_models();
    let sel = Selection::TopLevelVisible;
    let r = select_sorted(&table, &sel);
    proof {
        assert((|x: ResourceView| selected(sel, x)) =~= (|x: ResourceView| x.top_level && x.visible));
    }
    r
}

/// The models whose parent is `parent_key`, sorted by display order.
pub fn get_child_resources(parent_key: &str) -> (r: Vec<Resource>)
    ensures
        by_order(resource_views(r@)),
        resource_views(r@).to_multiset() == model_table().filter(|x: ResourceView| x.parent == Some(parent_key@)).to_multiset(),
{
    let table = ofga_models();
    let sel = Selection::ChildOf(owned(parent_key));
    let r = select_sorted(&table, &sel);
    proof {
        assert((|x: ResourceView| selected(sel, x)) =~= (|x: ResourceView| x.parent == Some(parent_key@)));
    }
    r
}

} // verus!
