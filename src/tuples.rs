//! The tuple sets of the org lifecycle: onboarding and offboarding users, role changes,
//! org creation, ownership and membership tuples.
use crate::codec::{
    group_type, group_type_spec, org_type, org_type_spec, resource_object, resource_object_all,
    resource_object_all_spec, resource_object_spec, role_type, role_type_spec, user_type,
    user_type_spec,
};
use crate::text::{cat, lower_of, str_eq, to_lower};
use crate::types::{key_views, TupleKey, TupleView};
use vstd::prelude::*;

verus! {

/// The org relation that a lower-cased system role maps to.
pub open spec fn org_relation_of_lower(role: Seq<char>) -> Seq<char> {
    if role == "root"@ || role == "admin"@ {
        "admin"@
    } else if role == "editor"@ {
        "editor"@
    } else if role == "viewer"@ {
        "viewer"@
    } else {
        "allowed_user"@
    }
}

/// The org relation that a system role maps to, ignoring case.
pub open spec fn org_relation_of(role: Seq<char>) -> Seq<char> {
    org_relation_of_lower(lower_of(role))
}

/// The grant relation that a lower-cased permission or check relation maps to.
pub open spec fn grant_relation_of_lower(p: Seq<char>) -> Seq<char> {
    if p == "allowall"@ || p == "admin"@ {
        "ALLOW_ALL"@
    } else if p == "allowget"@ || p == "can_read"@ {
        "ALLOW_GET"@
    } else if p == "allowlist"@ || p == "can_list"@ {
        "ALLOW_LIST"@
    } else if p == "allowpost"@ || p == "can_create"@ {
        "ALLOW_POST"@
    } else if p == "allowput"@ || p == "can_update"@ {
        "ALLOW_PUT"@
    } else if p == "allowdelete"@ || p == "can_delete"@ {
        "ALLOW_DELETE"@
    } else {
        "ALLOW_GET"@
    }
}

/// The `has` userset of a role: everyone that holds the role.
pub open spec fn role_has_spec(org: Seq<char>, role: Seq<char>) -> Seq<char> {
    role_type_spec(org, role) + "#has"@
}

pub open spec fn user_crole_spec(org: Seq<char>, role: Seq<char>, email: Seq<char>) -> TupleView {
    (user_type_spec(email), "assigned"@, role_type_spec(org, role))
}

pub open spec fn group_member_spec(org: Seq<char>, group: Seq<char>, email: Seq<char>) -> TupleView {
    (user_type_spec(email), "member"@, group_type_spec(org, group))
}

pub open spec fn group_role_spec(org: Seq<char>, group: Seq<char>, role: Seq<char>) -> TupleView {
    (group_type_spec(org, group), "grp_assigned"@, role_type_spec(org, role))
}

/// The pair of tuples that puts a user in an org under a relation: the relation itself
/// and the org context, which permission evaluation intersects with it.
pub open spec fn org_pair(org: Seq<char>, email: Seq<char>, relation: Seq<char>) -> Seq<TupleView> {
    seq![
        (user_type_spec(email), relation, org_type_spec(org)),
        (user_type_spec(email), "org_context"@, org_type_spec(org)),
    ]
}

fn push_tuple(tuples: &mut Vec<TupleKey>, user: &str, relation: &str, object: &str)
    ensures
        key_views(final(tuples)@) == key_views(old(tuples)@).push((user@, relation@, object@)),
{
    tuples.push(TupleKey::new(user, relation, object));
    proof {
        assert(key_views(final(tuples)@) =~= key_views(old(tuples)@).push((user@, relation@, object@)));
    }
}

/// The org relation for a system role: root and admin give `admin`, editor `editor`,
/// viewer `viewer`, anything else `allowed_user`; case is ignored.
pub fn role_to_fga_relation(role: &str) -> (r: &'static str)
    ensures
        r@ == org_relation_of(role@),
{
    let lower = to_lower(role);
    org_relation_from_lower(lower.as_str())
}

/// The org relation for an already lower-cased system role.
pub fn org_relation_from_lower(role: &str) -> (r: &'static str)
    ensures
        r@ == org_relation_of_lower(role@),
{
    if str_eq(role, "root") || str_eq(role, "admin") {
        "admin"
    } else if str_eq(role, "editor") {
        "editor"
    } else if str_eq(role, "viewer") {
        "viewer"
    } else {
        "allowed_user"
    }
}

/// Appends the two tuples that add a user to an org: the role's relation and `org_context`.
pub fn get_add_user_to_org_tuples(org_id: &str, user_email: &str, role: &str, tuples: &mut Vec<TupleKey>)
    ensures
        key_views(final(tuples)@) == key_views(old(tuples)@) + org_pair(org_id@, user_email@, org_relation_of(role@)),
{
    let relation = role_to_fga_relation(role);
    push_org_pair(org_id, user_email, relation, tuples);
}

/// Appends the relation tuple and the `org_context` tuple of a user in an org.
pub fn push_org_pair(org_id: &str, user_email: &str, relation: &str, tuples: &mut Vec<TupleKey>)
    ensures
        key_views(final(tuples)@) == key_views(old(tuples)@) + org_pair(org_id@, user_email@, relation@),
{
    let user = user_type(user_email);
    let org = org_type(org_id);
    let ghost before = key_views(tuples@);
    push_tuple(tuples, user.as_str(), relation, org.as_str());
    push_tuple(tuples, user.as_str(), "org_context", org.as_str());
    proof {
        assert(key_views(tuples@) =~= before + org_pair(org_id@, user_email@, relation@));
    }
}

/// The tuple that assigns a custom role to a user.
pub fn get_user_crole_tuple(org_id: &str, role_name: &str, user_email: &str) -> (r: TupleKey)
    ensures
        r@ == user_crole_spec(org_id@, role_name@, user_email@),
{
    let user = user_type(user_email);
    let role = role_type(org_id, role_name);
    TupleKey::new(user.as_str(), "assigned", role.as_str())
}

/// The role object of a role name in an org.
pub fn get_role_key(org_id: &str, role_name: &str) -> (r: String)
    ensures
        r@ == role_type_spec(org_id@, role_name@),
{
    role_type(org_id, role_name)
}

/// Appends the tuple that takes a user out of a custom role, given the role object.
pub fn get_user_crole_removal_tuples(user_email: &str, role_key: &str, tuples: &mut Vec<TupleKey>)
    ensures
        key_views(final(tuples)@) == key_views(old(tuples)@).push((user_type_spec(user_email@), "assigned"@, role_key@)),
{
    let user = user_type(user_email);
    push_tuple(tuples, user.as_str(), "assigned", role_key);
}

/// Appends the self-referential `member` tuple of a new org.
pub fn get_org_creation_tuples(org_id: &str, tuples: &mut Vec<TupleKey>)
    ensures
        key_views(final(tuples)@) == key_views(old(tuples)@).push((org_type_spec(org_id@), "member"@, org_type_spec(org_id@))),
{
    let org = org_type(org_id);
    push_tuple(tuples, org.as_str(), "member", org.as_str());
}

/// The tuple that makes a user the owner of a resource.
pub fn get_ownership_tuple(org_id: &str, resource_type: &str, entity_id: &str, owner_email: &str) -> (r: TupleKey)
    ensures
        r@ == (user_type_spec(owner_email@), "owner"@, resource_object_spec(resource_type@, entity_id@)),
{
    let user = user_type(owner_email);
    let resource = resource_object(org_id, resource_type, entity_id);
    TupleKey::new(user.as_str(), "owner", resource.as_str())
}

/// The tuple that makes the org the parent of a resource.
pub fn get_resource_parent_tuple(org_id: &str, resource_type: &str, entity_id: &str) -> (r: TupleKey)
    ensures
        r@ == (org_type_spec(org_id@), "parent"@, resource_object_spec(resource_type@, entity_id@)),
{
    let org = org_type(org_id);
    let resource = resource_object(org_id, resource_type, entity_id);
    TupleKey::new(org.as_str(), "parent", resource.as_str())
}

/// The grant relation for a permission or check relation name, ignoring case;
/// unknown names give `ALLOW_GET`.
pub fn grant_relation(permission: &str) -> (r: &'static str)
    ensures
        r@ == grant_relation_of_lower(lower_of(permission@)),
{
    let lower = to_lower(permission);
    grant_relation_from_lower(lower.as_str())
}

/// The grant relation for an already lower-cased permission or check relation name.
pub fn grant_relation_from_lower(p: &str) -> (r: &'static str)
    ensures
        r@ == grant_relation_of_lower(p@),
{
    if str_eq(p, "allowall") || str_eq(p, "admin") {
        "ALLOW_ALL"
    } else if str_eq(p, "allowget") || str_eq(p, "can_read") {
        "ALLOW_GET"
    } else if str_eq(p, "allowlist") || str_eq(p, "can_list") {
        "ALLOW_LIST"
    } else if str_eq(p, "allowpost") || str_eq(p, "can_create") {
        "ALLOW_POST"
    } else if str_eq(p, "allowput") || str_eq(p, "can_update") {
        "ALLOW_PUT"
    } else if str_eq(p, "allowdelete") || str_eq(p, "can_delete") {
        "ALLOW_DELETE"
    } else {
        "ALLOW_GET"
    }
}

/// The tuple that grants a role a permission on every resource of a type in the org.
pub fn get_org_resource_permission_tuple(
    org_id: &str,
    resource_type: &str,
    role_name: &str,
    permission: &str,
) -> (r: TupleKey)
    ensures
        r@ == (
            role_has_spec(org_id@, role_name@),
            grant_relation_of_lower(lower_of(permission@)),
            resource_object_all_spec(org_id@, resource_type@),
        ),
{
    let role = role_type(org_id, role_name);
    let role_has = cat(role.as_str(), "#has");
    let resource = resource_object_all(org_id, resource_type);
    let relation = grant_relation(permission);
    TupleKey::new(role_has.as_str(), relation, resource.as_str())
}

/// The tuple that puts a user in a group.
pub fn get_group_member_tuple(org_id: &str, group_name: &str, user_email: &str) -> (r: TupleKey)
    ensures
        r@ == group_member_spec(org_id@, group_name@, user_email@),
{
    let user = user_type(user_email);
    let group = group_type(org_id, group_name);
    TupleKey::new(user.as_str(), "member", group.as_str())
}

/// The tuple that assigns a role to a group.
pub fn get_group_role_tuple(org_id: &str, group_name: &str, role_name: &str) -> (r: TupleKey)
    ensures
        r@ == group_role_spec(org_id@, group_name@, role_name@),
{
    let group = group_type(org_id, group_name);
    let role = role_type(org_id, role_name);
    TupleKey::new(group.as_str(), "grp_assigned", role.as_str())
}

/// Appends the tuples of a new service account: `allowed_user` and `org_context`.
pub fn get_service_account_creation_tuple(org_id: &str, email: &str, tuples: &mut Vec<TupleKey>)
    ensures
        key_views(final(tuples)@) == key_views(old(tuples)@) + org_pair(org_id@, email@, "allowed_user"@),
{
    push_org_pair(org_id, email, "allowed_user", tuples);
}

/// Appends the tuples of a new user in the default org (`default` when none is configured):
/// `allowed_user` and `org_context`.
pub fn get_new_user_creation_tuple(user_email: &str, default_org: Option<&str>, tuples: &mut Vec<TupleKey>)
    ensures
        key_views(final(tuples)@) == key_views(old(tuples)@) + org_pair(
            match default_org {
                Some(o) => o@,
                None => "default"@,
            },
            user_email@,
            "allowed_user"@,
        ),
{
    let org = match default_org {
        Some(o) => o,
        None => "default",
    };
    push_org_pair(org, user_email, "allowed_user", tuples);
}

/// Appends the tuples that take a user with a known system role out of an org.
pub fn get_delete_user_system_role_tuples(org_id: &str, user_email: &str, role: &str, tuples: &mut Vec<TupleKey>)
    ensures
        key_views(final(tuples)@) == key_views(old(tuples)@) + org_pair(org_id@, user_email@, org_relation_of(role@)),
{
    let relation = role_to_fga_relation(role);
    push_org_pair(org_id, user_email, relation, tuples);
}

/// The tuples that take a user of unknown role out of an org: every role relation and
/// `org_context`.
pub open spec fn delete_all_spec(org: Seq<char>, email: Seq<char>) -> Seq<TupleView> {
    seq![
        (user_type_spec(email), "admin"@, org_type_spec(org)),
        (user_type_spec(email), "editor"@, org_type_spec(org)),
        (user_type_spec(email), "viewer"@, org_type_spec(org)),
        (user_type_spec(email), "allowed_user"@, org_type_spec(org)),
        (user_type_spec(email), "org_context"@, org_type_spec(org)),
    ]
}

/// Appends the tuples that take a user of unknown role out of an org.
pub fn get_delete_all_user_from_org_tuples(org_id: &str, user_email: &str, tuples: &mut Vec<TupleKey>)
    ensures
        key_views(final(tuples)@) == key_views(old(tuples)@) + delete_all_spec(org_id@, user_email@),
{
    let user = user_type(user_email);
    let org = org_type(org_id);
    let ghost before = key_views(tuples@);
    push_tuple(tuples, user.as_str(), "admin", org.as_str());
    push_tuple(tuples, user.as_str(), "editor", org.as_str());
    push_tuple(tuples, user.as_str(), "viewer", org.as_str());
    push_tuple(tuples, user.as_str(), "allowed_user", org.as_str());
    push_tuple(tuples, user.as_str(), "org_context", org.as_str());
    proof {
        assert(key_views(tuples@) =~= before + delete_all_spec(org_id@, user_email@));
    }
}

/// Appends the `owner`, `admin` and `member` tuples of a user on an org.
pub fn get_delete_user_from_org_tuples(org_id: &str, user_email: &str, tuples: &mut Vec<TupleKey>)
    ensures
        key_views(final(tuples)@) == key_views(old(tuples)@) + seq![
            (user_type_spec(user_email@), "owner"@, org_type_spec(org_id@)),
            (user_type_spec(user_email@), "admin"@, org_type_spec(org_id@)),
            (user_type_spec(user_email@), "member"@, org_type_spec(org_id@)),
        ],
{
    let user = user_type(user_email);
    let org = org_type(org_id);
    let ghost before = key_views(tuples@);
    push_tuple(tuples, user.as_str(), "owner", org.as_str());
    push_tuple(tuples, user.as_str(), "admin", org.as_str());
    push_tuple(tuples, user.as_str(), "member", org.as_str());
    proof {
        assert(key_views(tuples@) =~= before + seq![
            (user_type_spec(user_email@), "owner"@, org_type_spec(org_id@)),
            (user_type_spec(user_email@), "admin"@, org_type_spec(org_id@)),
            (user_type_spec(user_email@), "member"@, org_type_spec(org_id@)),
        ]);
    }
}

/// The writes and deletes of a change of system role: nothing when both roles map to the
/// same relation, else delete the old relation and write the new one; `org_context` stays.
pub fn update_user_role(org_id: &str, user_email: &str, old_role: &str, new_role: &str) -> (r: (
    Vec<TupleKey>,
    Vec<TupleKey>,
))
    ensures
        org_relation_of(old_role@) == org_relation_of(new_role@) ==> r.0@.len() == 0 && r.1@.len() == 0,
        org_relation_of(old_role@) != org_relation_of(new_role@) ==> key_views(r.0@) == seq![
            (user_type_spec(user_email@), org_relation_of(new_role@), org_type_spec(org_id@)),
        ] && key_views(r.1@) == seq![
            (user_type_spec(user_email@), org_relation_of(old_role@), org_type_spec(org_id@)),
        ],
{
    let old_relation = role_to_fga_relation(old_role);
    let new_relation = role_to_fga_relation(new_role);
    let mut writes: Vec<TupleKey> = Vec::new();
    let mut deletes: Vec<TupleKey> = Vec::new();
    if str_eq(old_relation, new_relation) {
        return (writes, deletes);
    }
    let user = user_type(user_email);
    let org = org_type(org_id);
    proof {
        assert(key_views(writes@) =~= Seq::<TupleView>::empty());
        assert(key_views(deletes@) =~= Seq::<TupleView>::empty());
    }
    push_tuple(&mut deletes, user.as_str(), old_relation, org.as_str());
    push_tuple(&mut writes, user.as_str(), new_relation, org.as_str());
    (writes, deletes)
}

} // verus!
