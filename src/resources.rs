//! The resource catalog: the static table of resource types, their hierarchy and display
//! order, with lookups and order-sorted selections.
use crate::text::{owned, str_eq};
use vstd::prelude::*;
use vstd::seq_lib::to_multiset_insert;

verus! {

/// A resource type of the catalog.
#[derive(Debug, Clone)]
pub struct Resource {
    pub key: String,
    pub display_name: String,
    pub parent: Option<String>,
    pub order: i32,
    pub visible: bool,
    /// Set exactly when there is no parent.
    pub top_level: bool,
    /// Whether individual instances exist, not only the type.
    pub has_entities: bool,
}

/// The abstract value of a resource.
pub struct ResourceView {
    pub key: Seq<char>,
    pub display_name: Seq<char>,
    pub parent: Option<Seq<char>>,
    pub order: i32,
    pub visible: bool,
    pub top_level: bool,
    pub has_entities: bool,
}

pub open spec fn opt_seq(o: Option<String>) -> Option<Seq<char>> {
    match o {
        Some(s) => Some(s@),
        None => None,
    }
}

impl View for Resource {
    type V = ResourceView;

    open spec fn view(&self) -> ResourceView {
        ResourceView {
            key: self.key@,
            display_name: self.display_name@,
            parent: opt_seq(self.parent),
            order: self.order,
            visible: self.visible,
            top_level: self.top_level,
            has_entities: self.has_entities,
        }
    }
}

/// A catalog entry; `top_level` follows from the parent.
pub open spec fn rv(
    key: Seq<char>,
    display_name: Seq<char>,
    parent: Option<Seq<char>>,
    order: i32,
    visible: bool,
    has_entities: bool,
) -> ResourceView {
    ResourceView { key, display_name, parent, order, visible, top_level: parent is None, has_entities }
}

pub open spec fn resource_views(s: Seq<Resource>) -> Seq<ResourceView> {
    s.map_values(|r: Resource| r@)
}

/// Sorted by display order, ties in any order.
pub open spec fn by_order(s: Seq<ResourceView>) -> bool {
    forall|i: int, j: int| 0 <= i < j < s.len() ==> s[i].order <= s[j].order
}

/// The entries that a selection keeps.
pub enum Selection {
    Visible,
    TopLevelVisible,
    ChildOf(String),
}

pub open spec fn selected(sel: Selection, r: ResourceView) -> bool {
    match sel {
        Selection::Visible => r.visible,
        Selection::TopLevelVisible => r.top_level && r.visible,
        Selection::ChildOf(p) => r.parent == Some(p@),
    }
}

/// The entry stored under `key`: the first one with that key.
pub open spec fn lookup(table: Seq<ResourceView>, key: Seq<char>) -> Option<ResourceView> {
    if exists|i: int| 0 <= i < table.len() && table[i].key == key {
        let i = choose|i: int|
            0 <= i < table.len() && table[i].key == key && forall|j: int|
                0 <= j < i ==> table[j].key != key;
        Some(table[i])
    } else {
        None
    }
}

/// A resource from its parts; it is top level exactly when it has no parent.
pub fn resource(
    key: &str,
    label: &str,
    parent: Option<&str>,
    order: i32,
    visible: bool,
    has_entities: bool,
) -> (r: Resource)
    ensures
        r@ == rv(key@, label@, match parent { Some(p) => Some(p@), None => None }, order, visible, has_entities),
{
    let top_level = parent.is_none();
    let parent = match parent {
        Some(p) => Some(owned(p)),
        None => None,
    };
    Resource {
        key: owned(key),
        display_name: owned(label),
        parent,
        order,
        visible,
        top_level,
        has_entities,
    }
}

impl Resource {
    /// A resource from its parts; it is top level exactly when it has no parent.
    pub fn new(
        key: &str,
        display_name: &str,
        parent: Option<&str>,
        order: i32,
        visible: bool,
        has_entities: bool,
    ) -> (r: Resource)
        ensures
            r@ == rv(key@, display_name@, match parent { Some(p) => Some(p@), None => None }, order, visible, has_entities),
    {
        resource(key, display_name, parent, order, visible, has_entities)
    }

    /// A copy with the same fields.
    pub fn duplicate(&self) -> (r: Resource)
        ensures
            r@ == self@,
    {
        let parent = match &self.parent {
            Some(p) => Some(owned(p.as_str())),
            None => None,
        };
        Resource {
            key: owned(self.key.as_str()),
            display_name: owned(self.display_name.as_str()),
            parent,
            order: self.order,
            visible: self.visible,
            top_level: self.top_level,
            has_entities: self.has_entities,
        }
    }
}

pub(crate) fn push_resource(
    v: &mut Vec<Resource>,
    key: &str,
    label: &str,
    parent: Option<&str>,
    order: i32,
    visible: bool,
    has_entities: bool,
)
    ensures
        resource_views(final(v)@) == resource_views(old(v)@).push(
            rv(key@, label@, match parent { Some(p) => Some(p@), None => None }, order, visible, has_entities),
        ),
{
    let r = resource(key, label, parent, order, visible, has_entities);
    v.push(r);
    proof {
        assert(resource_views(final(v)@) =~= resource_views(old(v)@).push(
            rv(key@, label@, match parent { Some(p) => Some(p@), None => None }, order, visible, has_entities),
        ));
    }
}

/// The entry of `table` stored under `key`.
pub fn find_in(table: &Vec<Resource>, key: &str) -> (r: Option<Resource>)
    ensures
        r matches Some(x) ==> lookup(resource_views(table@), key@) == Some(x@),
        r is None ==> lookup(resource_views(table@), key@) is None,
{
    let ghost views = resource_views(table@);
    let mut i: usize = 0;
    while i < table.len()
        invariant
            views == resource_views(table@),
            i <= table.len(),
            forall|j: int| 0 <= j < i ==> views[j].key != key@,
        decreases table.len() - i,
    {
        if str_eq(table[i].key.as_str(), key) {
            proof {
                let k = choose|k: int|
                    0 <= k < views.len() && views[k].key == key@ && forall|j: int|
                        0 <= j < k ==> views[j].key != key@;
                assert(views[i as int].key == key@);
                if k < i {
                    assert(views[k].key != key@);
                } else if k > i {
                    assert(views[i as int].key != key@);
                }
            }
            return Some(table[i].duplicate());
        }
        i = i + 1;
    }
    None
}

/// Whether `table` has an entry under `key`.
pub fn contains_in(table: &Vec<Resource>, key: &str) -> (r: bool)
    ensures
        r == (lookup(resource_views(table@), key@) is Some),
{
    find_in(table, key).is_some()
}

fn keeps(sel: &Selection, r: &Resource) -> (b: bool)
    ensures
        b == selected(*sel, r@),
{
    match sel {
        Selection::Visible => r.visible,
        Selection::TopLevelVisible => r.top_level && r.visible,
        Selection::ChildOf(p) => match &r.parent {
            Some(q) => str_eq(q.as_str(), p.as_str()),
            None => false,
        },
    }
}

fn insert_by_order(v: &mut Vec<Resource>, x: Resource)
    requires
        by_order(resource_views(old(v)@)),
    ensures
        by_order(resource_views(final(v)@)),
        resource_views(final(v)@).to_multiset() == resource_views(old(v)@).to_multiset().insert(x@),
{
    let ghost old_views = resource_views(v@);
    let mut i: usize = v.len();
    while i > 0 && v[i - 1].order > x.order
        invariant
            i <= v.len(),
            old_views == resource_views(v@),
            by_order(old_views),
            forall|j: int| i <= j < v.len() ==> v@[j].order > x.order,
        decreases i,
    {
        i = i - 1;
    }
    let ghost xv = x@;
    v.insert(i, x);
    proof {
        let nv = resource_views(v@);
        assert(nv =~= old_views.insert(i as int, xv));
        to_multiset_insert(old_views, i as int, xv);
        assert forall|a: int, b: int| 0 <= a < b < nv.len() implies nv[a].order <= nv[b].order by {
            if i > 0 {
                assert(old_views[i - 1].order <= xv.order);
            }
            if a < i && b > i {
                assert(old_views[a].order <= old_views[b - 1].order);
            }
        }
    }
}

/// The entries of `table` that `sel` keeps, sorted by display order.
pub fn select_sorted(table: &Vec<Resource>, sel: &Selection) -> (r: Vec<Resource>)
    ensures
        by_order(resource_views(r@)),
        resource_views(r@).to_multiset() == resource_views(table@).filter(|x: ResourceView| selected(*sel, x)).to_multiset(),
{
    let ghost views = resource_views(table@);
    let ghost pred = |x: ResourceView| selected(*sel, x);
    let mut out: Vec<Resource> = Vec::new();
    let mut i: usize = 0;
    proof {
        assert(views.subrange(0, 0).filter(pred) =~= Seq::<ResourceView>::empty());
        assert(resource_views(out@) =~= Seq::<ResourceView>::empty());
    }
    while i < table.len()
        invariant
            views == resource_views(table@),
            pred == (|x: ResourceView| selected(*sel, x)),
            i <= table.len(),
            by_order(resource_views(out@)),
            resource_views(out@).to_multiset() == views.subrange(0, i as int).filter(pred).to_multiset(),
        decreases table.len() - i,
    {
        proof {
            assert(views.subrange(0, i + 1) =~= views.subrange(0, i as int).push(views[i as int]));
            views.subrange(0, i as int).lemma_filter_push(views[i as int], pred);
        }
        if keeps(sel, &table[i]) {
            let x = table[i].duplicate();
            insert_by_order(&mut out, x);
            proof {
                vstd::seq_lib::to_multiset_build(views.subrange(0, i as int).filter(pred), views[i as int]);
            }
        }
        i = i + 1;
    }
    proof {
        assert(views.subrange(0, table.len() as int) =~= views);
    }
    out
}

/// The catalog with the legacy aliases of some keys.
pub open spec fn resource_table() -> Seq<ResourceView> {
    seq![
        rv("user"@, "Users"@, None, 1, true, true),
        rv("group"@, "Groups"@, None, 2, true, true),
        rv("role"@, "Roles"@, None, 3, true, true),
        rv("org"@, "Organizations"@, None, 4, true, false),
        rv("stream"@, "Streams"@, None, 10, false, true),
        rv("logs"@, "Logs"@, Some("stream"@), 11, true, true),
        rv("metrics"@, "Metrics"@, Some("stream"@), 12, true, true),
        rv("traces"@, "Traces"@, Some("stream"@), 13, true, true),
        rv("metadata"@, "Metadata"@, Some("stream"@), 14, false, true),
        rv("index"@, "Index"@, Some("stream"@), 15, true, true),
        rv("dfolder"@, "Dashboard Folders"@, None, 20, true, true),
        rv("dashboard"@, "Dashboards"@, Some("dfolder"@), 21, true, true),
        rv("template"@, "Templates"@, None, 22, true, true),
        rv("savedviews"@, "Saved Views"@, None, 23, true, true),
        rv("afolder"@, "Alert Folders"@, None, 30, true, true),
        rv("alert"@, "Alerts"@, Some("afolder"@), 31, true, true),
        rv("destination"@, "Destinations"@, None, 32, true, true),
        rv("rfolder"@, "Report Folders"@, None, 40, true, true),
        rv("report"@, "Reports"@, Some("rfolder"@), 41, true, true),
        rv("function"@, "Functions"@, None, 50, true, true),
        rv("pipeline"@, "Pipelines"@, None, 51, true, true),
        rv("settings"@, "Settings"@, None, 60, true, false),
        rv("kv"@, "KV Store"@, None, 61, true, true),
        rv("enrichment_table"@, "Enrichment Tables"@, None, 62, true, true),
        rv("summary"@, "Summary"@, None, 63, true, true),
        rv("syslog-route"@, "Syslog Routes"@, None, 64, true, true),
        rv("passcode"@, "Passcodes"@, None, 70, true, true),
        rv("rumtoken"@, "RUM Tokens"@, None, 71, true, true),
        rv("service_accounts"@, "Service Accounts"@, None, 72, true, true),
        rv("cipher_keys"@, "Cipher Keys"@, None, 73, true, true),
        rv("search_jobs"@, "Search Jobs"@, None, 80, true, true),
        rv("action_scripts"@, "Action Scripts"@, None, 81, true, true),
        rv("ratelimit"@, "Rate Limits"@, None, 82, true, true),
        rv("ai"@, "AI"@, None, 83, true, false),
        rv("re_patterns"@, "Regex Patterns"@, None, 84, true, true),
        rv("license"@, "License"@, None, 90, true, false),
        rv("templates"@, "Templates"@, None, 22, true, true),
        rv("functions"@, "Functions"@, None, 50, true, true),
        rv("reports"@, "Reports"@, None, 41, true, true),
        rv("destinations"@, "Destinations"@, None, 32, true, true),
        rv("alert_folders"@, "Alert Folders"@, None, 30, true, true),
        rv("serviceaccounts"@, "Service Accounts"@, None, 72, true, true),
        rv("actionscripts"@, "Action Scripts"@, None, 81, true, true),
        rv("cipherkeys"@, "Cipher Keys"@, None, 73, true, true),
    ]
}

/// The catalog with its legacy aliases (`templates`, `functions`, `reports`, ...).
#[verifier::rlimit(100)]
pub fn resource_types() -> (r: Vec<Resource>)
    ensures
        resource_views(r@) == resource_table(),
{
    let mut v: Vec<Resource> = Vec::new();
    proof {
        assert(resource_views(v@) =~= Seq::<ResourceView>::empty());
    }
    push_resource(&mut v, "user", "Users", None, 1, true, true);
    push_resource(&mut v, "group", "Groups", None, 2, true, true);
    push_resource(&mut v, "role", "Roles", None, 3, true, true);
    push_resource(&mut v, "org", "Organizations", None, 4, true, false);
    push_resource(&mut v, "stream", "Streams", None, 10, false, true);
    push_resource(&mut v, "logs", "Logs", Some("stream"), 11, true, true);
    push_resource(&mut v, "metrics", "Metrics", Some("stream"), 12, true, true);
    push_resource(&mut v, "traces", "Traces", Some("stream"), 13, true, true);
    push_resource(&mut v, "metadata", "Metadata", Some("stream"), 14, false, true);
    push_resource(&mut v, "index", "Index", Some("stream"), 15, true, true);
    push_resource(&mut v, "dfolder", "Dashboard Folders", None, 20, true, true);
    push_resource(&mut v, "dashboard", "Dashboards", Some("dfolder"), 21, true, true);
    push_resource(&mut v, "template", "Templates", None, 22, true, true);
    push_resource(&mut v, "savedviews", "Saved Views", None, 23, true, true);
    push_resource(&mut v, "afolder", "Alert Folders", None, 30, true, true);
    push_resource(&mut v, "alert", "Alerts", Some("afolder"), 31, true, true);
    push_resource(&mut v, "destination", "Destinations", None, 32, true, true);
    push_resource(&mut v, "rfolder", "Report Folders", None, 40, true, true);
    push_resource(&mut v, "report", "Reports", Some("rfolder"), 41, true, true);
    push_resource(&mut v, "function", "Functions", None, 50, true, true);
    push_resource(&mut v, "pipeline", "Pipelines", None, 51, true, true);
    push_resource(&mut v, "settings", "Settings", None, 60, true, false);
    push_resource(&mut v, "kv", "KV Store", None, 61, true, true);
    push_resource(&mut v, "enrichment_table", "Enrichment Tables", None, 62, true, true);
    push_resource(&mut v, "summary", "Summary", None, 63, true, true);
    push_resource(&mut v, "syslog-route", "Syslog Routes", None, 64, true, true);
    push_resource(&mut v, "passcode", "Passcodes", None, 70, true, true);
    push_resource(&mut v, "rumtoken", "RUM Tokens", None, 71, true, true);
    push_resource(&mut v, "service_accounts", "Service Accounts", None, 72, true, true);
    push_resource(&mut v, "cipher_keys", "Cipher Keys", None, 73, true, true);
    push_resource(&mut v, "search_jobs", "Search Jobs", None, 80, true, true);
    push_resource(&mut v, "action_scripts", "Action Scripts", None, 81, true, true);
    push_resource(&mut v, "ratelimit", "Rate Limits", None, 82, true, true);
    push_resource(&mut v, "ai", "AI", None, 83, true, false);
    push_resource(&mut v, "re_patterns", "Regex Patterns", None, 84, true, true);
    push_resource(&mut v, "license", "License", None, 90, true, false);
    push_resource(&mut v, "templates", "Templates", None, 22, true, true);
    push_resource(&mut v, "functions", "Functions", None, 50, true, true);
    push_resource(&mut v, "reports", "Reports", None, 41, true, true);
    push_resource(&mut v, "destinations", "Destinations", None, 32, true, true);
    push_resource(&mut v, "alert_folders", "Alert Folders", None, 30, true, true);
    push_resource(&mut v, "serviceaccounts", "Service Accounts", None, 72, true, true);
    push_resource(&mut v, "actionscripts", "Action Scripts", None, 81, true, true);
    push_resource(&mut v, "cipherkeys", "Cipher Keys", None, 73, true, true);    v
}

/// The catalog entry for `key`.
pub fn get_resource(key: &str) -> (r: Option<Resource>)
    ensures
        r matches Some(x) ==> lookup(resource_table(), key@) == Some(x@),
        r is None ==> lookup(resource_table(), key@) is None,
{
    let table = resource_types();
    find_in(&table, key)
}

/// Whether `key` names a catalog entry.
pub fn is_valid_resource_type(key: &str) -> (r: bool)
    ensures
        r == (lookup(resource_table(), key@) is Some),
{
    let table = resource_types();
    contains_in(&table, key)
}

/// The visible entries, sorted by display order.
pub fn get_all_resources() -> (r: Vec<Resource>)
    ensures
        by_order(resource_views(r@)),
        resource_views(r@).to_multiset() == resource_table().filter(|x: ResourceView| x.visible).to_multiset(),
{
    let table = resource_types();
    let sel = Selection::Visible;
    let r = select_sorted(&table, &sel);
    proof {
        assert((|x: ResourceView| selected(sel, x)) =~= (|x: ResourceView| x.visible));
    }
    r
}

/// The visible entries without a parent, sorted by display order.
pub fn get_top_level_resources() -> (r: Vec<Resource>)
    ensures
        by_order(resource_views(r@)),
        resource_views(r@).to_multiset() == resource_table().filter(|x: ResourceView| x.top_level && x.visible).to_multiset(),
{
    let table = resource_types();
    let sel = Selection::TopLevelVisible;
    let r = select_sorted(&table, &sel);
    proof {
        assert((|x: ResourceView| selected(sel, x)) =~= (|x: ResourceView| x.top_level && x.visible));
    }
    r
}

/// The entries whose parent is `parent_key`, sorted by display order.
pub fn get_child_resources(parent_key: &str) -> (r: Vec<Resource>)
    ensures
        by_order(resource_views(r@)),
        resource_views(r@).to_multiset() == resource_table().filter(|x: ResourceView| x.parent == Some(parent_key@)).to_multiset(),
{
    let table = resource_types();
    let sel = Selection::ChildOf(owned(parent_key));
    let r = select_sorted(&table, &sel);
    proof {
        assert((|x: ResourceView| selected(sel, x)) =~= (|x: ResourceView| x.parent == Some(parent_key@)));
    }
    r
}


/// Every parent named in the catalog is itself a catalog key.
pub open spec fn parents_exist(table: Seq<ResourceView>) -> bool {
    forall|i: int|
        0 <= i < table.len() && table[i].parent is Some ==> exists|j: int|
            0 <= j < table.len() && table[j].key == table[i].parent->0
}

/// The catalog's hierarchy is closed: each parent is a catalog entry.
pub proof fn lemma_catalog_parents_exist()
    ensures
        parents_exist(resource_table()),
{
    let t = resource_table();
    assert forall|i: int| 0 <= i < t.len() && t[i].parent is Some implies exists|j: int|
        0 <= j < t.len() && t[j].key == t[i].parent->0 by {
        if i == 5 {
            assert(t[4].key == t[5].parent->0);
        } else if i == 6 {
            assert(t[4].key == t[6].parent->0);
        } else if i == 7 {
            assert(t[4].key == t[7].parent->0);
        } else if i == 8 {
            assert(t[4].key == t[8].parent->0);
        } else if i == 9 {
            assert(t[4].key == t[9].parent->0);
        } else if i == 11 {
            assert(t[10].key == t[11].parent->0);
        } else if i == 15 {
            assert(t[14].key == t[15].parent->0);
        } else if i == 18 {
            assert(t[17].key == t[18].parent->0);
        }
    }
}

} // verus!
