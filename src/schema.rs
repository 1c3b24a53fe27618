//! The authorization model written to a store that has none.
use crate::text::cat;
use vstd::prelude::*;

verus! {

/// The opening of the model: its schema version and the user, org, group and role types.
pub const MODEL_HEAD_A: &'static str = r#"{"schema_version":"1.1","type_definitions":[{"type":"user"},{"type":"org","relations":{"admin":{"intersection":{"child":[{"this":{}},{"computedUserset":{"relation":"org_context"}}]}},"editor":{"intersection":{"child":[{"this":{}},{"computedUserset":{"relation":"org_context"}}]}},"viewer":{"intersection":{"child":[{"this":{}},{"computedUserset":{"relation":"org_context"}}]}},"allowed_user":{"intersection":{"child":[{"this":{}},{"computedUserset":{"relation":"org_context"}}]}},"org_context":{"this":{}},"member":{"this":{}},"owner":{"this":{}},"owningOrg":{"this":{}}},"metadata":{"relations":{"admin":{"directly_related_user_types":[{"type":"user"}]},"editor":{"directly_related_user_types":[{"type":"user"}]},"viewer":{"directly_related_user_types":[{"type":"user"}]},"allowed_user":{"directly_related_user_types":[{"type":"user"}]},"org_context":{"directly_related_user_types":[{"type":"user""#;

pub const MODEL_HEAD_B: &'static str = r#"}]},"member":{"directly_related_user_types":[{"type":"org"}]},"owner":{"directly_related_user_types":[{"type":"user"}]},"owningOrg":{"directly_related_user_types":[{"type":"user"}]}}}},{"type":"group","relations":{"owningOrg":{"this":{}},"member":{"this":{}}},"metadata":{"relations":{"owningOrg":{"directly_related_user_types":[{"type":"org"}]},"member":{"directly_related_user_types":[{"type":"user"}]}}}},{"type":"role","relations":{"owningOrg":{"this":{}},"assigned":{"this":{}},"grp_assigned":{"this":{}},"has":{"union":{"child":[{"computedUserset":{"relation":"assigned"}},{"tupleToUserset":{"tupleset":{"relation":"grp_assigned"},"computedUserset":{"relation":"member"}}}]}}},"metadata":{"relations":{"owningOrg":{"directly_related_user_types":[{"type":"org"}]},"assigned":{"directly_related_user_types":[{"type":"user"}]},"grp_assigned":{"directly_related_user_types":[{"type":"group"}]}}}}"#;

/// The pieces of a resource type's definition, between which its quoted name stands: its
/// owning org, parent links, the `ALLOW_*` grants to a role's `has` userset and the
/// check relations computed from them.
pub const TYPE_PART_0: &'static str = r#"{"type":"#;

pub const TYPE_PART_1A: &'static str = r#","relations":{"owningOrg":{"this":{}},"parent":{"this":{}},"selfParent":{"this":{}},"ALLOW_ALL":{"this":{}},"ALLOW_LIST":{"this":{}},"ALLOW_GET":{"this":{}},"ALLOW_POST":{"this":{}},"ALLOW_PUT":{"this":{}},"ALLOW_DELETE":{"this":{}},"admin":{"computedUserset":{"relation":"ALLOW_ALL"}},"can_list":{"union":{"child":[{"computedUserset":{"relation":"ALLOW_LIST"}},{"computedUserset":{"relation":"ALLOW_ALL"}}]}},"can_read":{"union":{"child":[{"computedUserset":{"relation":"ALLOW_GET"}},{"computedUserset":{"relation":"ALLOW_A"#;

pub const TYPE_PART_1B: &'static str = r#"LL"}}]}},"can_create":{"union":{"child":[{"computedUserset":{"relation":"ALLOW_POST"}},{"computedUserset":{"relation":"ALLOW_ALL"}}]}},"can_update":{"union":{"child":[{"computedUserset":{"relation":"ALLOW_PUT"}},{"computedUserset":{"relation":"ALLOW_ALL"}}]}},"can_delete":{"union":{"child":[{"computedUserset":{"relation":"ALLOW_DELETE"}},{"computedUserset":{"relation":"ALLOW_ALL"}}]}}},"metadata":{"relations":{"owningOrg":{"directly_related_user_types":[{"type":"org"}]},"parent":{"directly_related_user_types":[{"type":"#;

pub const TYPE_PART_2: &'static str = r#"}]},"selfParent":{"directly_related_user_types":[{"type":"#;

pub const TYPE_PART_3: &'static str = r#"}]},"ALLOW_ALL":{"directly_related_user_types":[{"type":"role","relation":"has"}]},"ALLOW_LIST":{"directly_related_user_types":[{"type":"role","relation":"has"}]},"ALLOW_GET":{"directly_related_user_types":[{"type":"role","relation":"has"}]},"ALLOW_POST":{"directly_related_user_types":[{"type":"role","relation":"has"}]},"ALLOW_PUT":{"directly_related_user_types":[{"type":"role","relation":"has"}]},"ALLOW_DELETE":{"directly_related_user_types":[{"type":"role","relation":"has"}]}}}}"#;

/// The definition of one resource type.
pub open spec fn type_definition(name: Seq<char>) -> Seq<char> {
    let q = "\""@ + name + "\""@;
    TYPE_PART_0@ + q + TYPE_PART_1A@ + TYPE_PART_1B@ + q + TYPE_PART_2@ + q + TYPE_PART_3@
}

/// The definitions of resource types, each after a comma.
pub open spec fn type_definitions(names: Seq<Seq<char>>) -> Seq<char>
    decreases names.len(),
{
    if names.len() == 0 {
        Seq::empty()
    } else {
        type_definitions(names.drop_last()) + ","@ + type_definition(names.last())
    }
}

/// The resource types that the model defines.
pub open spec fn model_types() -> Seq<Seq<char>> {
    seq![
        "stream"@,
        "logs"@,
        "metrics"@,
        "traces"@,
        "metadata"@,
        "index"@,
        "dfolder"@,
        "dashboard"@,
        "template"@,
        "savedviews"@,
        "afolder"@,
        "alert"@,
        "destination"@,
        "rfolder"@,
        "report"@,
        "function"@,
        "pipeline"@,
        "settings"@,
        "kv"@,
        "enrichment_table"@,
        "summary"@,
        "syslog-route"@,
        "passcode"@,
        "rumtoken"@,
        "service_accounts"@,
        "cipher_keys"@,
        "search_jobs"@,
        "action_scripts"@,
        "ratelimit"@,
        "ai"@,
        "re_patterns"@,
        "license"@
    ]
}

/// The whole model.
pub open spec fn model_spec() -> Seq<char> {
    MODEL_HEAD_A@ + MODEL_HEAD_B@ + type_definitions(model_types()) + "]}"@
}

fn model_type_names() -> (r: Vec<&'static str>)
    ensures
        r@.map_values(|s: &str| s@) == model_types(),
{
    let mut v: Vec<&'static str> = Vec::new();
    v.push("stream");
    v.push("logs");
    v.push("metrics");
    v.push("traces");
    v.push("metadata");
    v.push("index");
    v.push("dfolder");
    v.push("dashboard");
    v.push("template");
    v.push("savedviews");
    v.push("afolder");
    v.push("alert");
    v.push("destination");
    v.push("rfolder");
    v.push("report");
    v.push("function");
    v.push("pipeline");
    v.push("settings");
    v.push("kv");
    v.push("enrichment_table");
    v.push("summary");
    v.push("syslog-route");
    v.push("passcode");
    v.push("rumtoken");
    v.push("service_accounts");
    v.push("cipher_keys");
    v.push("search_jobs");
    v.push("action_scripts");
    v.push("ratelimit");
    v.push("ai");
    v.push("re_patterns");
    v.push("license");
    proof {
        assert(v@.map_values(|s: &str| s@) =~= model_types());
    }
    v
}

fn type_definition_text(name: &str) -> (r: String)
    ensures
        r@ == type_definition(name@),
{
    let q = crate::text::cat3("\"", name, "\"");
    let mut s = cat(TYPE_PART_0, q.as_str());
    s.append(TYPE_PART_1A);
    s.append(TYPE_PART_1B);
    s.append(q.as_str());
    s.append(TYPE_PART_2);
    s.append(q.as_str());
    s.append(TYPE_PART_3);
    proof {
        assert(s@ =~= type_definition(name@));
    }
    s
}

/// The authorization model as JSON text.
pub fn get_authorization_model_json() -> (r: String)
    ensures
        r@ == model_spec(),
{
    let names = model_type_names();
    let ghost ns = names@.map_values(|s: &str| s@);
    let mut out = cat(MODEL_HEAD_A, MODEL_HEAD_B);
    let mut i: usize = 0;
    proof {
        assert(ns.subrange(0, 0) =~= Seq::<Seq<char>>::empty());
        assert(out@ =~= MODEL_HEAD_A@ + MODEL_HEAD_B@ + type_definitions(ns.subrange(0, 0)));
    }
    while i < names.len()
        invariant
            ns == names@.map_values(|s: &str| s@),
            i <= names.len(),
            out@ == MODEL_HEAD_A@ + MODEL_HEAD_B@ + type_definitions(ns.subrange(0, i as int)),
        decreases names.len() - i,
    {
        let def = type_definition_text(names[i]);
        let ghost before = out@;
        out.append(",");
        out.append(def.as_str());
        proof {
            assert(ns.subrange(0, i + 1).drop_last() =~= ns.subrange(0, i as int));
            assert(out@ =~= before + ","@ + type_definition(ns[i as int]));
        }
        i = i + 1;
    }
    out.append("]}");
    proof {
        assert(ns.subrange(0, names.len() as int) =~= ns);
    }
    out
}

} // verus!
