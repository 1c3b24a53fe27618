//! Construction and parsing of the tuple-store identifiers: `type:id` objects, the
//! per-org wildcard `type:_all_{org}`, and the user, role, group and org names.
use crate::text::{cat, cat3, cat4, find_char, first_index_of, starts_with, str_eq};
use crate::types::{key_views, TupleKey, TupleView};
use vstd::prelude::*;
use vstd::string::*;

verus! {

pub open spec fn org_type_spec(org: Seq<char>) -> Seq<char> {
    "org:"@ + org
}

pub open spec fn user_type_spec(email: Seq<char>) -> Seq<char> {
    "user:"@ + email
}

pub open spec fn role_type_spec(org: Seq<char>, name: Seq<char>) -> Seq<char> {
    "role:"@ + org + "_"@ + name
}

pub open spec fn group_type_spec(org: Seq<char>, name: Seq<char>) -> Seq<char> {
    "group:"@ + org + "_"@ + name
}

pub open spec fn resource_object_spec(rtype: Seq<char>, entity: Seq<char>) -> Seq<char> {
    rtype + ":"@ + entity
}

pub open spec fn resource_object_all_spec(org: Seq<char>, rtype: Seq<char>) -> Seq<char> {
    rtype + ":_all_"@ + org
}

/// Splits on the first `:`; `None` when there is none.
pub open spec fn parse_object_spec(s: Seq<char>) -> Option<(Seq<char>, Seq<char>)> {
    match first_index_of(s, ':') {
        Some(i) => Some((s.subrange(0, i), s.subrange(i + 1, s.len() as int))),
        None => None,
    }
}

/// An entity id that names every entity of its type in the org.
pub open spec fn is_all_org_entity_spec(entity: Seq<char>, org: Seq<char>) -> bool {
    entity == "_all_"@ + org || entity == "_all"@ || "_all"@.is_prefix_of(entity)
}

/// The org object: `org:{org_id}`.
pub fn org_type(org_id: &str) -> (r: String)
    ensures
        r@ == org_type_spec(org_id@),
{
    cat("org:", org_id)
}

/// The user object: `user:{email}`.
pub fn user_type(user_email: &str) -> (r: String)
    ensures
        r@ == user_type_spec(user_email@),
{
    cat("user:", user_email)
}

/// The role object: `role:{org_id}_{role_name}`.
pub fn role_type(org_id: &str, role_name: &str) -> (r: String)
    ensures
        r@ == role_type_spec(org_id@, role_name@),
{
    cat4("role:", org_id, "_", role_name)
}

/// The group object: `group:{org_id}_{group_name}`.
pub fn group_type(org_id: &str, group_name: &str) -> (r: String)
    ensures
        r@ == group_type_spec(org_id@, group_name@),
{
    cat4("group:", org_id, "_", group_name)
}

/// A resource object, `{resource_type}:{entity_id}`; the org is not part of the name,
/// it is tied to the object by ownership tuples.
pub fn resource_object(org_id: &str, resource_type: &str, entity_id: &str) -> (r: String)
    ensures
        r@ == resource_object_spec(resource_type@, entity_id@),
{
    cat3(resource_type, ":", entity_id)
}

/// The wildcard object for every resource of a type in an org: `{type}:_all_{org_id}`.
pub fn resource_object_all(org_id: &str, resource_type: &str) -> (r: String)
    ensures
        r@ == resource_object_all_spec(org_id@, resource_type@),
{
    cat3(resource_type, ":_all_", org_id)
}

/// The org-scoped type name `org_{org_id}_{resource_key}`.
pub fn get_fga_type(org_id: &str, resource_key: &str) -> (r: String)
    ensures
        r@ == "org_"@ + org_id@ + "_"@ + resource_key@,
{
    cat4("org_", org_id, "_", resource_key)
}

/// Splits `resource_type:entity_id` on its first `:`.
pub fn parse_object<'a>(object: &'a str) -> (r: Option<(&'a str, &'a str)>)
    ensures
        r matches Some(p) ==> parse_object_spec(object@) == Some((p.0@, p.1@)),
        r is None ==> parse_object_spec(object@) is None,
{
    match find_char(object, ':') {
        Some(i) => {
            let n = object.unicode_len();
            Some((object.substring_char(0, i), object.substring_char(i + 1, n)))
        },
        None => None,
    }
}

/// Whether an entity id is the org-wide wildcard: `_all_{org_id}`, `_all`, or any id
/// that starts with `_all`.
pub fn is_all_org_entity(entity: &str, org_id: &str) -> (r: bool)
    ensures
        r == is_all_org_entity_spec(entity@, org_id@),
{
    let all_org = cat("_all_", org_id);
    str_eq(entity, all_org.as_str()) || str_eq(entity, "_all") || starts_with(entity, "_all")
}

/// Since every wildcard form starts with `_all`, the test is a prefix test.
pub proof fn lemma_all_org_entity_is_prefix(entity: Seq<char>, org: Seq<char>)
    ensures
        is_all_org_entity_spec(entity, org) == "_all"@.is_prefix_of(entity),
{
    reveal_strlit("_all_");
    reveal_strlit("_all");
    if entity == "_all_"@ + org {
        assert(entity.subrange(0, 4) =~= "_all"@);
    }
    if entity == "_all"@ {
        assert(entity.subrange(0, 4) =~= "_all"@);
    }
}

fn push_key(v: &mut Vec<TupleKey>, user: &str, relation: &str, object: &str)
    ensures
        key_views(final(v)@) == key_views(old(v)@).push((user@, relation@, object@)),
{
    let k = TupleKey::new(user, relation, object);
    v.push(k);
    proof {
        assert(key_views(final(v)@) =~= key_views(old(v)@).push((user@, relation@, object@)));
    }
}

/// The tuples that seed a new store: root-user grants, org ownership of the wildcard
/// objects, folder self-parent links and stream parent links, for `default` and `_meta`.
pub open spec fn initial_tuples_spec() -> Seq<TupleView> {
    seq![
        ("org:default"@, "owningOrg"@, "user:root@visdata.com"@),
        ("user:root@visdata.com"@, "admin"@, "org:default"@),
        ("user:root@visdata.com"@, "org_context"@, "org:default"@),
        ("user:root@visdata.com"@, "admin"@, "org:_meta"@),
        ("user:root@visdata.com"@, "org_context"@, "org:_meta"@),
        ("org:default"@, "owningOrg"@, "stream:_all_default"@),
        ("org:default"@, "owningOrg"@, "logs:_all_default"@),
        ("org:default"@, "owningOrg"@, "metrics:_all_default"@),
        ("org:default"@, "owningOrg"@, "traces:_all_default"@),
        ("org:default"@, "owningOrg"@, "metadata:_all_default"@),
        ("org:default"@, "owningOrg"@, "index:_all_default"@),
        ("org:default"@, "owningOrg"@, "dashboard:_all_default"@),
        ("org:default"@, "owningOrg"@, "dfolder:_all_default"@),
        ("org:default"@, "owningOrg"@, "savedviews:_all_default"@),
        ("org:default"@, "owningOrg"@, "report:_all_default"@),
        ("org:default"@, "owningOrg"@, "rfolder:_all_default"@),
        ("org:default"@, "owningOrg"@, "alert:_all_default"@),
        ("org:default"@, "owningOrg"@, "afolder:_all_default"@),
        ("org:default"@, "owningOrg"@, "template:_all_default"@),
        ("org:default"@, "owningOrg"@, "destination:_all_default"@),
        ("org:default"@, "owningOrg"@, "function:_all_default"@),
        ("org:default"@, "owningOrg"@, "pipeline:_all_default"@),
        ("org:default"@, "owningOrg"@, "enrichment_table:_all_default"@),
        ("org:default"@, "owningOrg"@, "summary:_all_default"@),
        ("org:default"@, "owningOrg"@, "settings:_all_default"@),
        ("org:default"@, "owningOrg"@, "kv:_all_default"@),
        ("org:default"@, "owningOrg"@, "syslog-route:_all_default"@),
        ("org:default"@, "owningOrg"@, "ratelimit:_all_default"@),
        ("org:default"@, "owningOrg"@, "cipher_keys:_all_default"@),
        ("org:default"@, "owningOrg"@, "license:_all_default"@),
        ("org:default"@, "owningOrg"@, "user:_all_default"@),
        ("org:default"@, "owningOrg"@, "group:_all_default"@),
        ("org:default"@, "owningOrg"@, "role:_all_default"@),
        ("org:default"@, "owningOrg"@, "passcode:_all_default"@),
        ("org:default"@, "owningOrg"@, "rumtoken:_all_default"@),
        ("org:default"@, "owningOrg"@, "service_accounts:_all_default"@),
        ("org:default"@, "owningOrg"@, "search_jobs:_all_default"@),
        ("org:default"@, "owningOrg"@, "action_scripts:_all_default"@),
        ("org:default"@, "owningOrg"@, "ai:_all_default"@),
        ("org:default"@, "owningOrg"@, "re_patterns:_all_default"@),
        ("org:default"@, "owningOrg"@, "dfolder:default"@),
        ("dfolder:_all_default"@, "selfParent"@, "dfolder:default"@),
        ("org:default"@, "owningOrg"@, "afolder:default"@),
        ("afolder:_all_default"@, "selfParent"@, "afolder:default"@),
        ("stream:_all_default"@, "parent"@, "logs:_all_default"@),
        ("stream:_all_default"@, "parent"@, "metrics:_all_default"@),
        ("stream:_all_default"@, "parent"@, "traces:_all_default"@),
        ("stream:_all_default"@, "parent"@, "index:_all_default"@),
        ("stream:_all_default"@, "parent"@, "metadata:_all_default"@),
        ("org:_meta"@, "owningOrg"@, "logs:audit"@),
        ("org:_meta"@, "owningOrg"@, "stream:_all__meta"@),
        ("org:_meta"@, "owningOrg"@, "logs:_all__meta"@),
        ("org:_meta"@, "owningOrg"@, "metrics:_all__meta"@),
        ("org:_meta"@, "owningOrg"@, "traces:_all__meta"@),
        ("org:_meta"@, "owningOrg"@, "metadata:_all__meta"@),
        ("org:_meta"@, "owningOrg"@, "index:_all__meta"@),
        ("org:_meta"@, "owningOrg"@, "dashboard:_all__meta"@),
        ("org:_meta"@, "owningOrg"@, "dfolder:_all__meta"@),
        ("org:_meta"@, "owningOrg"@, "savedviews:_all__meta"@),
        ("org:_meta"@, "owningOrg"@, "report:_all__meta"@),
        ("org:_meta"@, "owningOrg"@, "rfolder:_all__meta"@),
        ("org:_meta"@, "owningOrg"@, "alert:_all__meta"@),
        ("org:_meta"@, "owningOrg"@, "afolder:_all__meta"@),
        ("org:_meta"@, "owningOrg"@, "template:_all__meta"@),
        ("org:_meta"@, "owningOrg"@, "destination:_all__meta"@),
        ("org:_meta"@, "owningOrg"@, "function:_all__meta"@),
        ("org:_meta"@, "owningOrg"@, "pipeline:_all__meta"@),
        ("org:_meta"@, "owningOrg"@, "enrichment_table:_all__meta"@),
        ("org:_meta"@, "owningOrg"@, "summary:_all__meta"@),
        ("org:_meta"@, "owningOrg"@, "settings:_all__meta"@),
        ("org:_meta"@, "owningOrg"@, "kv:_all__meta"@),
        ("org:_meta"@, "owningOrg"@, "syslog-route:_all__meta"@),
        ("org:_meta"@, "owningOrg"@, "ratelimit:_all__meta"@),
        ("org:_meta"@, "owningOrg"@, "cipher_keys:_all__meta"@),
        ("org:_meta"@, "owningOrg"@, "license:_all__meta"@),
        ("org:_meta"@, "owningOrg"@, "user:_all__meta"@),
        ("org:_meta"@, "owningOrg"@, "group:_all__meta"@),
        ("org:_meta"@, "owningOrg"@, "role:_all__meta"@),
        ("org:_meta"@, "owningOrg"@, "passcode:_all__meta"@),
        ("org:_meta"@, "owningOrg"@, "rumtoken:_all__meta"@),
        ("org:_meta"@, "owningOrg"@, "service_accounts:_all__meta"@),
        ("org:_meta"@, "owningOrg"@, "search_jobs:_all__meta"@),
        ("org:_meta"@, "owningOrg"@, "action_scripts:_all__meta"@),
        ("org:_meta"@, "owningOrg"@, "ai:_all__meta"@),
        ("org:_meta"@, "owningOrg"@, "re_patterns:_all__meta"@),
        ("org:_meta"@, "owningOrg"@, "dfolder:default"@),
        ("dfolder:_all__meta"@, "selfParent"@, "dfolder:default"@),
        ("org:_meta"@, "owningOrg"@, "afolder:default"@),
        ("afolder:_all__meta"@, "selfParent"@, "afolder:default"@),
        ("stream:_all__meta"@, "parent"@, "logs:_all__meta"@),
        ("stream:_all__meta"@, "parent"@, "metrics:_all__meta"@),
        ("stream:_all__meta"@, "parent"@, "traces:_all__meta"@),
        ("stream:_all__meta"@, "parent"@, "index:_all__meta"@),
        ("stream:_all__meta"@, "parent"@, "metadata:_all__meta"@),
    ]
}

/// The tuples written to a newly created store.
#[verifier::rlimit(100)]
pub fn get_initial_tuples() -> (r: Vec<TupleKey>)
    ensures
        key_views(r@) == initial_tuples_spec(),
{
    let mut v: Vec<TupleKey> = Vec::new();
    proof {
        assert(key_views(v@) =~= Seq::<TupleView>::empty());
    }
    push_key(&mut v, "org:default", "owningOrg", "user:root@visdata.com");
    push_key(&mut v, "user:root@visdata.com", "admin", "org:default");
    push_key(&mut v, "user:root@visdata.com", "org_context", "org:default");
    push_key(&mut v, "user:root@visdata.com", "admin", "org:_meta");
    push_key(&mut v, "user:root@visdata.com", "org_context", "org:_meta");
    push_key(&mut v, "org:default", "owningOrg", "stream:_all_default");
    push_key(&mut v, "org:default", "owningOrg", "logs:_all_default");
    push_key(&mut v, "org:default", "owningOrg", "metrics:_all_default");
    push_key(&mut v, "org:default", "owningOrg", "traces:_all_default");
    push_key(&mut v, "org:default", "owningOrg", "metadata:_all_default");
    push_key(&mut v, "org:default", "owningOrg", "index:_all_default");
    push_key(&mut v, "org:default", "owningOrg", "dashboard:_all_default");
    push_key(&mut v, "org:default", "owningOrg", "dfolder:_all_default");
    push_key(&mut v, "org:default", "owningOrg", "savedviews:_all_default");
    push_key(&mut v, "org:default", "owningOrg", "report:_all_default");
    push_key(&mut v, "org:default", "owningOrg", "rfolder:_all_default");
    push_key(&mut v, "org:default", "owningOrg", "alert:_all_default");
    push_key(&mut v, "org:default", "owningOrg", "afolder:_all_default");
    push_key(&mut v, "org:default", "owningOrg", "template:_all_default");
    push_key(&mut v, "org:default", "owningOrg", "destination:_all_default");
    push_key(&mut v, "org:default", "owningOrg", "function:_all_default");
    push_key(&mut v, "org:default", "owningOrg", "pipeline:_all_default");
    push_key(&mut v, "org:default", "owningOrg", "enrichment_table:_all_default");
    push_key(&mut v, "org:default", "owningOrg", "summary:_all_default");
    push_key(&mut v, "org:default", "owningOrg", "settings:_all_default");
    push_key(&mut v, "org:default", "owningOrg", "kv:_all_default");
    push_key(&mut v, "org:default", "owningOrg", "syslog-route:_all_default");
    push_key(&mut v, "org:default", "owningOrg", "ratelimit:_all_default");
    push_key(&mut v, "org:default", "owningOrg", "cipher_keys:_all_default");
    push_key(&mut v, "org:default", "owningOrg", "license:_all_default");
    push_key(&mut v, "org:default", "owningOrg", "user:_all_default");
    push_key(&mut v, "org:default", "owningOrg", "group:_all_default");
    push_key(&mut v, "org:default", "owningOrg", "role:_all_default");
    push_key(&mut v, "org:default", "owningOrg", "passcode:_all_default");
    push_key(&mut v, "org:default", "owningOrg", "rumtoken:_all_default");
    push_key(&mut v, "org:default", "owningOrg", "service_accounts:_all_default");
    push_key(&mut v, "org:default", "owningOrg", "search_jobs:_all_default");
    push_key(&mut v, "org:default", "owningOrg", "action_scripts:_all_default");
    push_key(&mut v, "org:default", "owningOrg", "ai:_all_default");
    push_key(&mut v, "org:default", "owningOrg", "re_patterns:_all_default");
    push_key(&mut v, "org:default", "owningOrg", "dfolder:default");
    push_key(&mut v, "dfolder:_all_default", "selfParent", "dfolder:default");
    push_key(&mut v, "org:default", "owningOrg", "afolder:default");
    push_key(&mut v, "afolder:_all_default", "selfParent", "afolder:default");
    push_key(&mut v, "stream:_all_default", "parent", "logs:_all_default");
    push_key(&mut v, "stream:_all_default", "parent", "metrics:_all_default");
    push_key(&mut v, "stream:_all_default", "parent", "traces:_all_default");
    push_key(&mut v, "stream:_all_default", "parent", "index:_all_default");
    push_key(&mut v, "stream:_all_default", "parent", "metadata:_all_default");
    push_key(&mut v, "org:_meta", "owningOrg", "logs:audit");
    push_key(&mut v, "org:_meta", "owningOrg", "stream:_all__meta");
    push_key(&mut v, "org:_meta", "owningOrg", "logs:_all__meta");
    push_key(&mut v, "org:_meta", "owningOrg", "metrics:_all__meta");
    push_key(&mut v, "org:_meta", "owningOrg", "traces:_all__meta");
    push_key(&mut v, "org:_meta", "owningOrg", "metadata:_all__meta");
    push_key(&mut v, "org:_meta", "owningOrg", "index:_all__meta");
    push_key(&mut v, "org:_meta", "owningOrg", "dashboard:_all__meta");
    push_key(&mut v, "org:_meta", "owningOrg", "dfolder:_all__meta");
    push_key(&mut v, "org:_meta", "owningOrg", "savedviews:_all__meta");
    push_key(&mut v, "org:_meta", "owningOrg", "report:_all__meta");
    push_key(&mut v, "org:_meta", "owningOrg", "rfolder:_all__meta");
    push_key(&mut v, "org:_meta", "owningOrg", "alert:_all__meta");
    push_key(&mut v, "org:_meta", "owningOrg", "afolder:_all__meta");
    push_key(&mut v, "org:_meta", "owningOrg", "template:_all__meta");
    push_key(&mut v, "org:_meta", "owningOrg", "destination:_all__meta");
    push_key(&mut v, "org:_meta", "owningOrg", "function:_all__meta");
    push_key(&mut v, "org:_meta", "owningOrg", "pipeline:_all__meta");
    push_key(&mut v, "org:_meta", "owningOrg", "enrichment_table:_all__meta");
    push_key(&mut v, "org:_meta", "owningOrg", "summary:_all__meta");
    push_key(&mut v, "org:_meta", "owningOrg", "settings:_all__meta");
    push_key(&mut v, "org:_meta", "owningOrg", "kv:_all__meta");
    push_key(&mut v, "org:_meta", "owningOrg", "syslog-route:_all__meta");
    push_key(&mut v, "org:_meta", "owningOrg", "ratelimit:_all__meta");
    push_key(&mut v, "org:_meta", "owningOrg", "cipher_keys:_all__meta");
    push_key(&mut v, "org:_meta", "owningOrg", "license:_all__meta");
    push_key(&mut v, "org:_meta", "owningOrg", "user:_all__meta");
    push_key(&mut v, "org:_meta", "owningOrg", "group:_all__meta");
    push_key(&mut v, "org:_meta", "owningOrg", "role:_all__meta");
    push_key(&mut v, "org:_meta", "owningOrg", "passcode:_all__meta");
    push_key(&mut v, "org:_meta", "owningOrg", "rumtoken:_all__meta");
    push_key(&mut v, "org:_meta", "owningOrg", "service_accounts:_all__meta");
    push_key(&mut v, "org:_meta", "owningOrg", "search_jobs:_all__meta");
    push_key(&mut v, "org:_meta", "owningOrg", "action_scripts:_all__meta");
    push_key(&mut v, "org:_meta", "owningOrg", "ai:_all__meta");
    push_key(&mut v, "org:_meta", "owningOrg", "re_patterns:_all__meta");
    push_key(&mut v, "org:_meta", "owningOrg", "dfolder:default");
    push_key(&mut v, "dfolder:_all__meta", "selfParent", "dfolder:default");
    push_key(&mut v, "org:_meta", "owningOrg", "afolder:default");
    push_key(&mut v, "afolder:_all__meta", "selfParent", "afolder:default");
    push_key(&mut v, "stream:_all__meta", "parent", "logs:_all__meta");
    push_key(&mut v, "stream:_all__meta", "parent", "metrics:_all__meta");
    push_key(&mut v, "stream:_all__meta", "parent", "traces:_all__meta");
    push_key(&mut v, "stream:_all__meta", "parent", "index:_all__meta");
    push_key(&mut v, "stream:_all__meta", "parent", "metadata:_all__meta");    v
}

} // verus!
