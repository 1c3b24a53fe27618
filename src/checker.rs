//! The permission checker: the decision of what a request needs (allow, deny, or a check
//! of one tuple against the store) and the fail-closed reading of the check's outcome;
//! and the planning of permission-filtered listings.
use crate::codec::{
    is_all_org_entity, is_all_org_entity_spec, parse_object, parse_object_spec, resource_object,
    resource_object_all, resource_object_all_spec, resource_object_spec, user_type, user_type_spec,
};
use crate::error::Error;
use crate::names::{strip_all, strip_each, string_views};
use crate::resources::{is_valid_resource_type, lookup, resource_table};
use crate::text::{cat4, eq_ascii_ci, eq_ignore_ascii_case, lower_of, upper_of};
use crate::types::{check_relation, permission_of_lower, permission_of_method, Permission, TupleKey, TupleView};
use vstd::prelude::*;

verus! {

/// What a permission request comes to.
pub enum CheckPlan {
    /// Allowed without asking the store.
    Allow,
    /// Denied without asking the store.
    Deny,
    /// Allowed exactly when the store confirms this tuple.
    Check(TupleKey),
}

/// The abstract value of a plan.
pub enum PlanView {
    Allow,
    Deny,
    Check(TupleView),
}

impl View for CheckPlan {
    type V = PlanView;

    open spec fn view(&self) -> PlanView {
        match self {
            CheckPlan::Allow => PlanView::Allow,
            CheckPlan::Deny => PlanView::Deny,
            CheckPlan::Check(k) => PlanView::Check(k@),
        }
    }
}

/// Whether a role string is the root role, ignoring ASCII case.
pub open spec fn is_root_spec(role: Seq<char>) -> bool {
    eq_ascii_ci(role, "root"@)
}

/// The tuple checked for a request on a known resource type.
pub open spec fn check_tuple_spec(org: Seq<char>, user: Seq<char>, method: Seq<char>, rtype: Seq<char>, entity: Seq<char>) -> TupleView {
    let is_list = is_all_org_entity_spec(entity, org);
    (
        user_type_spec(user),
        check_relation(permission_of_method(upper_of(method), is_list)),
        if is_list {
            resource_object_all_spec(org, rtype)
        } else {
            resource_object_spec(rtype, entity)
        },
    )
}

/// What a request comes to: allow when checking is off or the role is root; deny a
/// malformed object or an unknown resource type; otherwise check the tuple of the user,
/// the relation of the method (a listing when the entity is the org wildcard) and the
/// object (the type wildcard for a listing).
pub open spec fn plan_spec(
    enabled: bool,
    org: Seq<char>,
    user: Seq<char>,
    method: Seq<char>,
    object: Seq<char>,
    role: Seq<char>,
) -> PlanView {
    if !enabled || is_root_spec(role) {
        PlanView::Allow
    } else {
        match parse_object_spec(object) {
            None => PlanView::Deny,
            Some(p) => if lookup(resource_table(), p.0) is None {
                PlanView::Deny
            } else {
                PlanView::Check(check_tuple_spec(org, user, method, p.0, p.1))
            },
        }
    }
}

/// Decides what a permission request needs; `enabled` is whether checking is on.
pub fn is_allowed(enabled: bool, org_id: &str, user_id: &str, method: &str, object: &str, role: &str) -> (r: CheckPlan)
    ensures
        r@ == plan_spec(enabled, org_id@, user_id@, method@, object@, role@),
{
    if !enabled {
        return CheckPlan::Allow;
    }
    if eq_ignore_ascii_case(role, "root") {
        return CheckPlan::Allow;
    }
    let (resource_type, entity_id) = match parse_object(object) {
        Some(parts) => parts,
        None => {
            return CheckPlan::Deny;
        },
    };
    if !is_valid_resource_type(resource_type) {
        return CheckPlan::Deny;
    }
    let is_list = is_all_org_entity(entity_id, org_id);
    let permission = Permission::from_method(method, is_list);
    let relation = permission.to_relation();
    let user = user_type(user_id);
    let fga_object = if is_list {
        resource_object_all(org_id, resource_type)
    } else {
        resource_object(org_id, resource_type, entity_id)
    };
    CheckPlan::Check(TupleKey::new(user.as_str(), relation, fga_object.as_str()))
}

/// The decision for a plan, given what the store said of its tuple when one was asked
/// about. A store error denies: the check path fails closed.
pub fn decide(plan: &CheckPlan, outcome: &Option<Result<bool, Error>>) -> (r: bool)
    ensures
        plan@ is Allow ==> r,
        plan@ is Deny ==> !r,
        plan@ is Check ==> r == (*outcome matches Some(Ok(b)) && b),
{
    match plan {
        CheckPlan::Allow => true,
        CheckPlan::Deny => false,
        CheckPlan::Check(_) => match outcome {
            Some(Ok(b)) => *b,
            _ => false,
        },
    }
}

/// A listing request to the store: who, under which relation, over which object type.
pub struct ListPlan {
    pub user: String,
    pub relation: String,
    pub object_type: String,
}

/// The relation that a listing asks for: that of the named permission, `can_read` when
/// the name is unknown.
pub open spec fn list_relation_spec(permission: Seq<char>) -> Seq<char> {
    match permission_of_lower(lower_of(permission)) {
        Some(p) => check_relation(p),
        None => "can_read"@,
    }
}

/// Plans a permission-filtered listing: `None` when listings are not filtered (checking
/// off, a root caller, or filtering turned off), else what to ask the store.
pub fn list_objects_for_user(
    enabled: bool,
    list_only_permitted: bool,
    user_id: &str,
    permission: &str,
    role: &str,
) -> (r: Option<ListPlan>)
    ensures
        (!enabled || is_root_spec(role@) || !list_only_permitted) <==> r is None,
        r matches Some(p) ==> {
            &&& p.user@ == user_type_spec(user_id@)
            &&& p.relation@ == list_relation_spec(permission@)
            &&& p.object_type@ == "resource"@
        },
{
    if !enabled || eq_ignore_ascii_case(role, "root") {
        return None;
    }
    if !list_only_permitted {
        return None;
    }
    let relation = match Permission::from_str(permission) {
        Some(p) => p.to_relation(),
        None => "can_read",
    };
    Some(ListPlan {
        user: user_type(user_id),
        relation: crate::text::owned(relation),
        object_type: crate::text::owned("resource"),
    })
}

/// The prefix of the listed objects of an org and type: `resource:{org}_{type}_`.
pub open spec fn listed_prefix_spec(org: Seq<char>, object_type: Seq<char>) -> Seq<char> {
    "resource:"@ + org + "_"@ + object_type + "_"@
}

/// The entity ids, in order, of the listed objects that belong to the org and type.
pub fn filter_listed_objects(org_id: &str, object_type: &str, objects: &Vec<String>) -> (r: Vec<String>)
    ensures
        string_views(r@) == strip_all(string_views(objects@), listed_prefix_spec(org_id@, object_type@)),
{
    let head = cat4("resource:", org_id, "_", object_type);
    let prefix = crate::text::cat(head.as_str(), "_");
    strip_each(objects, prefix.as_str())
}

} // verus!
