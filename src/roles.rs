//! Custom roles: creation and deletion rules, listing from ownership tuples, permission
//! grants through the role's `has` userset, user assignment, and the permission-name
//! conversions of the administration API.
use crate::codec::{
    org_type, org_type_spec, parse_object_spec, resource_object, resource_object_all,
    resource_object_all_spec, resource_object_spec, role_type, role_type_spec,
};
use crate::error::Error;
use crate::names::{insert_name, strip_all, strip_each, string_views, strictly_sorted};
use crate::store::{tuple_users, users_of};
use crate::text::{
    cat, eq_ascii_ci, eq_ignore_ascii_case, lower_of, owned, starts_with, str_eq,
    strip_prefix, strip_spec, to_lower, to_upper, upper_of,
};
use crate::tuples::{get_user_crole_tuple, role_has_spec, user_crole_spec};
use crate::types::{
    key_views, tuple_views, PermissionEntry, RoleResponse, Tuple, TupleKey, TupleKeyFilter, TupleView,
    UserRoleOption,
};
use vstd::prelude::*;
use vstd::string::*;

verus! {

/// The fixed system roles, matched without regard to ASCII case.
pub open spec fn is_system_role_spec(name: Seq<char>) -> bool {
    eq_ascii_ci("admin"@, name) || eq_ascii_ci("editor"@, name) || eq_ascii_ci("viewer"@, name)
}

/// Whether `name` is a system role (admin, editor or viewer, in any ASCII case).
pub fn is_system_role(name: &str) -> (r: bool)
    ensures
        r == is_system_role_spec(name@),
{
    eq_ignore_ascii_case("admin", name) || eq_ignore_ascii_case("editor", name) || eq_ignore_ascii_case(
        "viewer",
        name,
    )
}

/// The first character upper-cased, the rest kept.
pub open spec fn capitalize_spec(s: Seq<char>) -> Seq<char> {
    if s.len() == 0 {
        s
    } else {
        upper_of(s.subrange(0, 1)) + s.subrange(1, s.len() as int)
    }
}

/// `s` with its first character upper-cased.
pub fn capitalize(s: &str) -> (r: String)
    ensures
        r@ == capitalize_spec(s@),
{
    let n = s.unicode_len();
    if n == 0 {
        return owned(s);
    }
    let first = s.substring_char(0, 1);
    let head = to_upper(first);
    let rest = s.substring_char(1, n);
    cat(head.as_str(), rest)
}

/// The grant relation for a lower-cased permission name; unknown names give `ALLOW_GET`.
pub open spec fn grant_of_lower(p: Seq<char>) -> Seq<char> {
    if p == "allowall"@ {
        "ALLOW_ALL"@
    } else if p == "allowlist"@ {
        "ALLOW_LIST"@
    } else if p == "allowget"@ {
        "ALLOW_GET"@
    } else if p == "allowpost"@ {
        "ALLOW_POST"@
    } else if p == "allowput"@ {
        "ALLOW_PUT"@
    } else if p == "allowdelete"@ {
        "ALLOW_DELETE"@
    } else {
        "ALLOW_GET"@
    }
}

/// The permission name of a grant relation; unknown relations give `AllowGet`.
pub open spec fn permission_of_grant(r: Seq<char>) -> Seq<char> {
    if r == "ALLOW_ALL"@ {
        "AllowAll"@
    } else if r == "ALLOW_LIST"@ {
        "AllowList"@
    } else if r == "ALLOW_GET"@ {
        "AllowGet"@
    } else if r == "ALLOW_POST"@ {
        "AllowPost"@
    } else if r == "ALLOW_PUT"@ {
        "AllowPut"@
    } else if r == "ALLOW_DELETE"@ {
        "AllowDelete"@
    } else {
        "AllowGet"@
    }
}

/// The grant relation for a permission name, ignoring case.
pub fn permission_to_relation(permission: &str) -> (r: &'static str)
    ensures
        r@ == grant_of_lower(lower_of(permission@)),
{
    let lower = to_lower(permission);
    relation_of_lower(lower.as_str())
}

/// The grant relation for an already lower-cased permission name.
pub fn relation_of_lower(p: &str) -> (r: &'static str)
    ensures
        r@ == grant_of_lower(p@),
{
    if str_eq(p, "allowall") {
        "ALLOW_ALL"
    } else if str_eq(p, "allowlist") {
        "ALLOW_LIST"
    } else if str_eq(p, "allowget") {
        "ALLOW_GET"
    } else if str_eq(p, "allowpost") {
        "ALLOW_POST"
    } else if str_eq(p, "allowput") {
        "ALLOW_PUT"
    } else if str_eq(p, "allowdelete") {
        "ALLOW_DELETE"
    } else {
        "ALLOW_GET"
    }
}

/// The permission name for a grant relation.
pub fn relation_to_permission(relation: &str) -> (r: String)
    ensures
        r@ == permission_of_grant(relation@),
{
    let p = if str_eq(relation, "ALLOW_ALL") {
        "AllowAll"
    } else if str_eq(relation, "ALLOW_LIST") {
        "AllowList"
    } else if str_eq(relation, "ALLOW_GET") {
        "AllowGet"
    } else if str_eq(relation, "ALLOW_POST") {
        "AllowPost"
    } else if str_eq(relation, "ALLOW_PUT") {
        "AllowPut"
    } else if str_eq(relation, "ALLOW_DELETE") {
        "AllowDelete"
    } else {
        "AllowGet"
    };
    owned(p)
}

/// The tuple that records a new role of an org.
pub open spec fn role_creation_spec(org: Seq<char>, name: Seq<char>) -> TupleView {
    (org_type_spec(org), "owningOrg"@, role_type_spec(org, name))
}

/// Whether `name` equals, up to ASCII case, one of `existing`.
pub open spec fn taken(existing: Seq<Seq<char>>, name: Seq<char>) -> bool {
    exists|i: int| 0 <= i < existing.len() && eq_ascii_ci(existing[i], name)
}

/// Whether `name` equals one of `existing` up to ASCII case.
pub(crate) fn find_ci(existing: &Vec<String>, name: &str) -> (r: bool)
    ensures
        r == taken(string_views(existing@), name@),
{
    let ghost ev = string_views(existing@);
    let mut i: usize = 0;
    while i < existing.len()
        invariant
            ev == string_views(existing@),
            i <= existing.len(),
            forall|j: int| 0 <= j < i ==> !eq_ascii_ci(ev[j], name@),
        decreases existing.len() - i,
    {
        if eq_ignore_ascii_case(existing[i].as_str(), name) {
            assert(eq_ascii_ci(ev[i as int], name@));
            return true;
        }
        i = i + 1;
    }
    false
}

/// Decides a role creation against the org's existing custom roles: a system role name
/// is refused with `Validation`, a name already taken (ignoring ASCII case) with
/// `DuplicateEntry`; otherwise the `owningOrg` tuple to write.
pub fn create_role(org_id: &str, role_name: &str, existing: &Vec<String>) -> (r: Result<TupleKey, Error>)
    ensures
        is_system_role_spec(role_name@) ==> r matches Err(Error::Validation(_)),
        !is_system_role_spec(role_name@) && taken(string_views(existing@), role_name@) ==> r matches Err(
            Error::DuplicateEntry(_),
        ),
        !is_system_role_spec(role_name@) && !taken(string_views(existing@), role_name@) ==> (r matches Ok(
            k,
        ) && k@ == role_creation_spec(org_id@, role_name@)),
{
    if is_system_role(role_name) {
        return Err(Error::Validation(cat("Cannot create role with system name: ", role_name)));
    }
    if find_ci(existing, role_name) {
        return Err(Error::DuplicateEntry(cat("Role already exists: ", role_name)));
    }
    let role_object = role_type(org_id, role_name);
    let org_object = org_type(org_id);
    Ok(TupleKey::new(org_object.as_str(), "owningOrg", role_object.as_str()))
}

/// The prefix of the role objects of an org: `role:{org}_`.
pub open spec fn role_prefix_spec(org: Seq<char>) -> Seq<char> {
    "role:"@ + org + "_"@
}

/// The custom role that a tuple records for an org, if it records one.
pub open spec fn listed_role(org: Seq<char>, t: TupleView) -> Option<Seq<char>> {
    if t.1 == "owningOrg"@ && t.0 == org_type_spec(org) {
        match strip_spec(t.2, role_prefix_spec(org)) {
            Some(n) => if is_system_role_spec(n) {
                None
            } else {
                Some(n)
            },
            None => None,
        }
    } else {
        None
    }
}

/// The custom roles that tuples record for an org.
pub open spec fn role_list_set(org: Seq<char>, ts: Seq<TupleView>) -> Set<Seq<char>> {
    Set::new(|n: Seq<char>| exists|i: int| 0 <= i < ts.len() && listed_role(org, ts[i]) == Some(n))
}

/// The org's custom roles found in a full read of the store: objects with the org's role
/// prefix owned by the org, system names left out; sorted, each once.
pub fn list_roles(org_id: &str, tuples: &Vec<Tuple>) -> (r: Vec<String>)
    ensures
        strictly_sorted(string_views(r@)),
        string_views(r@).to_set() == role_list_set(org_id@, tuple_views(tuples@)),
{
    let ghost tv = tuple_views(tuples@);
    let prefix = crate::text::cat3("role:", org_id, "_");
    let org_user = org_type(org_id);
    let mut out: Vec<String> = Vec::new();
    let mut i: usize = 0;
    proof {
        assert(string_views(out@) =~= Seq::<Seq<char>>::empty());
        assert(string_views(out@).to_set() =~= role_list_set(org_id@, tv.subrange(0, 0)));
    }
    while i < tuples.len()
        invariant
            tv == tuple_views(tuples@),
            prefix@ == role_prefix_spec(org_id@),
            org_user@ == org_type_spec(org_id@),
            i <= tuples.len(),
            strictly_sorted(string_views(out@)),
            string_views(out@).to_set() == role_list_set(org_id@, tv.subrange(0, i as int)),
        decreases tuples.len() - i,
    {
        let t = &tuples[i].key;
        let ghost before = string_views(out@).to_set();
        let mut found: Option<String> = None;
        if str_eq(t.relation.as_str(), "owningOrg") && str_eq(t.user.as_str(), org_user.as_str()) {
            match strip_prefix(t.object.as_str(), prefix.as_str()) {
                Some(n) => {
                    if !is_system_role(n.as_str()) {
                        found = Some(n);
                    }
                },
                None => {},
            }
        }
        proof {
            assert(found matches Some(n) ==> listed_role(org_id@, tv[i as int]) == Some(n@));
            assert(found is None ==> listed_role(org_id@, tv[i as int]) is None);
        }
        match found {
            Some(n) => {
                insert_name(&mut out, n.as_str());
            },
            None => {},
        }
        proof {
            let sub = tv.subrange(0, i as int);
            let sub1 = tv.subrange(0, i + 1);
            assert forall|n: Seq<char>| #[trigger] role_list_set(org_id@, sub1).contains(n) <==> (
            role_list_set(org_id@, sub).contains(n) || listed_role(org_id@, tv[i as int]) == Some(
                n,
            )) by {
                if role_list_set(org_id@, sub1).contains(n) {
                    let k = choose|k: int| 0 <= k < sub1.len() && listed_role(org_id@, sub1[k]) == Some(n);
                    if k < i {
                        assert(sub[k] == sub1[k]);
                    }
                }
                if role_list_set(org_id@, sub).contains(n) {
                    let k = choose|k: int| 0 <= k < sub.len() && listed_role(org_id@, sub[k]) == Some(n);
                    assert(sub1[k] == sub[k]);
                }
                if listed_role(org_id@, tv[i as int]) == Some(n) {
                    assert(sub1[i as int] == tv[i as int]);
                }
            }
            assert(string_views(out@).to_set() =~= role_list_set(org_id@, sub1));
        }
        i = i + 1;
    }
    proof {
        assert(tv.subrange(0, tuples.len() as int) =~= tv);
    }
    out
}

/// The role options offered for user assignment among the system roles.
pub open spec fn system_option_spec(value: Seq<char>) -> (Seq<char>, Seq<char>) {
    (capitalize_spec(value), value)
}

pub open spec fn option_views(v: Seq<UserRoleOption>) -> Seq<(Seq<char>, Seq<char>)> {
    v.map_values(|o: UserRoleOption| (o.label@, o.value@))
}

/// The system roles as assignment options: label capitalized, value as is.
pub fn list_system_roles(org_id: &str) -> (r: Vec<UserRoleOption>)
    ensures
        option_views(r@) == seq![
            system_option_spec("admin"@),
            system_option_spec("editor"@),
            system_option_spec("viewer"@),
        ],
{
    let mut v: Vec<UserRoleOption> = Vec::new();
    v.push(UserRoleOption { label: capitalize("admin"), value: owned("admin") });
    v.push(UserRoleOption { label: capitalize("editor"), value: owned("editor") });
    v.push(UserRoleOption { label: capitalize("viewer"), value: owned("viewer") });
    proof {
        assert(option_views(v@) =~= seq![
            system_option_spec("admin"@),
            system_option_spec("editor"@),
            system_option_spec("viewer"@),
        ]);
    }
    v
}

/// The custom-role options: each non-system role, label capitalized, value lower-cased.
pub open spec fn custom_options_spec(roles: Seq<Seq<char>>) -> Seq<(Seq<char>, Seq<char>)>
    decreases roles.len(),
{
    if roles.len() == 0 {
        Seq::empty()
    } else {
        let rest = custom_options_spec(roles.drop_last());
        let n = roles.last();
        if is_system_role_spec(n) {
            rest
        } else {
            rest.push((capitalize_spec(n), lower_of(n)))
        }
    }
}

/// The custom roles as assignment options, in the order given.
pub fn list_custom_roles(roles: &Vec<String>) -> (r: Vec<UserRoleOption>)
    ensures
        option_views(r@) == custom_options_spec(string_views(roles@)),
{
    let ghost rv = string_views(roles@);
    let mut out: Vec<UserRoleOption> = Vec::new();
    let mut i: usize = 0;
    proof {
        assert(rv.subrange(0, 0) =~= Seq::<Seq<char>>::empty());
        assert(option_views(out@) =~= Seq::<(Seq<char>, Seq<char>)>::empty());
    }
    while i < roles.len()
        invariant
            rv == string_views(roles@),
            i <= roles.len(),
            option_views(out@) == custom_options_spec(rv.subrange(0, i as int)),
        decreases roles.len() - i,
    {
        proof {
            assert(rv.subrange(0, i + 1).drop_last() =~= rv.subrange(0, i as int));
        }
        let n = roles[i].as_str();
        if !is_system_role(n) {
            let o = UserRoleOption { label: capitalize(n), value: to_lower(n) };
            let ghost before = option_views(out@);
            out.push(o);
            proof {
                assert(option_views(out@) =~= before.push((capitalize_spec(rv[i as int]), lower_of(rv[i as int]))));
            }
        }
        i = i + 1;
    }
    proof {
        assert(rv.subrange(0, roles.len() as int) =~= rv);
    }
    out
}

/// The reads that a role deletion needs, after refusing a system role with `Validation`:
/// every tuple on the role object, and every tuple whose user is the role's `has` userset.
pub fn delete_role(org_id: &str, role_name: &str) -> (r: Result<(TupleKeyFilter, TupleKeyFilter), Error>)
    ensures
        is_system_role_spec(role_name@) <==> r is Err,
        r matches Err(e) ==> e is Validation,
        r matches Ok(fs) ==> fs.0@ == (None::<Seq<char>>, None::<Seq<char>>, Some(role_type_spec(org_id@, role_name@)))
            && fs.1@ == (Some(role_has_spec(org_id@, role_name@)), None::<Seq<char>>, None::<Seq<char>>),
{
    if is_system_role(role_name) {
        return Err(Error::Validation(cat("Cannot delete system role: ", role_name)));
    }
    let role_object = role_type(org_id, role_name);
    let role_has = cat(role_object.as_str(), "#has");
    Ok((TupleKeyFilter::on_object(role_object.as_str()), TupleKeyFilter::on_user(role_has.as_str())))
}

/// The read that finds a role's users.
pub fn role_users_filter(org_id: &str, role_name: &str) -> (r: TupleKeyFilter)
    ensures
        r@ == (None::<Seq<char>>, Some("assigned"@), Some(role_type_spec(org_id@, role_name@))),
{
    let role_object = role_type(org_id, role_name);
    TupleKeyFilter::on_relation_object("assigned", role_object.as_str())
}

/// The users of a role, from the tuples assigning it: each `user:` subject without the
/// prefix, in order.
pub fn get_role_users(tuples: &Vec<Tuple>) -> (r: Vec<String>)
    ensures
        string_views(r@) == strip_all(users_of(tuple_views(tuples@)), "user:"@),
{
    let users = tuple_users(tuples);
    strip_each(&users, "user:")
}

/// The read that finds a role's permission grants.
pub fn role_permissions_filter(org_id: &str, role_name: &str) -> (r: TupleKeyFilter)
    ensures
        r@ == (Some(role_has_spec(org_id@, role_name@)), None::<Seq<char>>, None::<Seq<char>>),
{
    let role_object = role_type(org_id, role_name);
    let role_has = cat(role_object.as_str(), "#has");
    TupleKeyFilter::on_user(role_has.as_str())
}

pub open spec fn entry_views(v: Seq<PermissionEntry>) -> Seq<(Seq<char>, Seq<char>)> {
    v.map_values(|e: PermissionEntry| e@)
}

/// The grants on objects of one resource type, as permission entries, in order.
pub open spec fn permission_entries_spec(ts: Seq<TupleView>, rtype: Seq<char>) -> Seq<(Seq<char>, Seq<char>)>
    decreases ts.len(),
{
    if ts.len() == 0 {
        Seq::empty()
    } else {
        let rest = permission_entries_spec(ts.drop_last(), rtype);
        let t = ts.last();
        if (rtype + ":"@).is_prefix_of(t.2) {
            rest.push((t.2, permission_of_grant(t.1)))
        } else {
            rest
        }
    }
}

/// A role's permissions on one resource type, from the tuples granting them: each grant
/// whose object is of that type (a single entity or the org wildcard) as an entry of the
/// object and the permission name of the relation.
pub fn get_role_permissions(resource_type: &str, tuples: &Vec<Tuple>) -> (r: Vec<PermissionEntry>)
    ensures
        entry_views(r@) == permission_entries_spec(tuple_views(tuples@), resource_type@),
{
    let ghost tv = tuple_views(tuples@);
    let prefix = cat(resource_type, ":");
    let mut out: Vec<PermissionEntry> = Vec::new();
    let mut i: usize = 0;
    proof {
        assert(tv.subrange(0, 0) =~= Seq::<TupleView>::empty());
        assert(entry_views(out@) =~= Seq::<(Seq<char>, Seq<char>)>::empty());
    }
    while i < tuples.len()
        invariant
            tv == tuple_views(tuples@),
            prefix@ == resource_type@ + ":"@,
            i <= tuples.len(),
            entry_views(out@) == permission_entries_spec(tv.subrange(0, i as int), resource_type@),
        decreases tuples.len() - i,
    {
        proof {
            assert(tv.subrange(0, i + 1).drop_last() =~= tv.subrange(0, i as int));
        }
        let t = &tuples[i].key;
        if starts_with(t.object.as_str(), prefix.as_str()) {
            let e = PermissionEntry {
                object: owned(t.object.as_str()),
                permission: relation_to_permission(t.relation.as_str()),
            };
            let ghost before = entry_views(out@);
            out.push(e);
            proof {
                assert(entry_views(out@) =~= before.push((tv[i as int].2, permission_of_grant(tv[i as int].1))));
            }
        }
        i = i + 1;
    }
    proof {
        assert(tv.subrange(0, tuples.len() as int) =~= tv);
    }
    out
}

/// The object a permission entry grants on: the org wildcard when the entity id starts
/// with `_all`, else the entity itself.
pub open spec fn grant_object_spec(org: Seq<char>, rtype: Seq<char>, entity: Seq<char>) -> Seq<char> {
    if "_all"@.is_prefix_of(entity) {
        resource_object_all_spec(org, rtype)
    } else {
        resource_object_spec(rtype, entity)
    }
}

/// The grant tuples of permission entries, in order; entries without a `:` are skipped.
pub open spec fn grant_tuples_spec(org: Seq<char>, role: Seq<char>, es: Seq<(Seq<char>, Seq<char>)>) -> Seq<TupleView>
    decreases es.len(),
{
    if es.len() == 0 {
        Seq::empty()
    } else {
        let rest = grant_tuples_spec(org, role, es.drop_last());
        let e = es.last();
        match parse_object_spec(e.0) {
            Some(p) => rest.push(
                (role_has_spec(org, role), grant_of_lower(lower_of(e.1)), grant_object_spec(org, p.0, p.1)),
            ),
            None => rest,
        }
    }
}

/// The tuples that grant (to write) or revoke (to delete) permission entries of a role;
/// the subject is always the role's `has` userset.
pub fn role_permission_tuples(org_id: &str, role_name: &str, permissions: &Vec<PermissionEntry>) -> (r: Vec<TupleKey>)
    ensures
        key_views(r@) == grant_tuples_spec(org_id@, role_name@, entry_views(permissions@)),
{
    let ghost ev = entry_views(permissions@);
    let role_object = role_type(org_id, role_name);
    let role_has = cat(role_object.as_str(), "#has");
    let mut out: Vec<TupleKey> = Vec::new();
    let mut i: usize = 0;
    proof {
        assert(ev.subrange(0, 0) =~= Seq::<(Seq<char>, Seq<char>)>::empty());
        assert(key_views(out@) =~= Seq::<TupleView>::empty());
    }
    while i < permissions.len()
        invariant
            ev == entry_views(permissions@),
            role_has@ == role_has_spec(org_id@, role_name@),
            i <= permissions.len(),
            key_views(out@) == grant_tuples_spec(org_id@, role_name@, ev.subrange(0, i as int)),
        decreases permissions.len() - i,
    {
        proof {
            assert(ev.subrange(0, i + 1).drop_last() =~= ev.subrange(0, i as int));
        }
        let perm = &permissions[i];
        match crate::codec::parse_object(perm.object.as_str()) {
            Some((resource_type, entity_id)) => {
                let relation = permission_to_relation(perm.permission.as_str());
                let resource = if starts_with(entity_id, "_all") {
                    resource_object_all(org_id, resource_type)
                } else {
                    resource_object(org_id, resource_type, entity_id)
                };
                let k = TupleKey::new(role_has.as_str(), relation, resource.as_str());
                let ghost before = key_views(out@);
                out.push(k);
                proof {
                    assert(key_views(out@) =~= before.push(k@));
                }
            },
            None => {},
        }
        i = i + 1;
    }
    proof {
        assert(ev.subrange(0, permissions.len() as int) =~= ev);
    }
    out
}

/// The assignment tuples of users to a role, one per user, in order.
pub open spec fn role_user_tuples_spec(org: Seq<char>, role: Seq<char>, users: Seq<Seq<char>>) -> Seq<TupleView> {
    users.map_values(|u: Seq<char>| user_crole_spec(org, role, u))
}

/// The tuples that assign (to write) or unassign (to delete) users of a role.
pub fn role_user_tuples(org_id: &str, role_name: &str, users: &Vec<String>) -> (r: Vec<TupleKey>)
    ensures
        key_views(r@) == role_user_tuples_spec(org_id@, role_name@, string_views(users@)),
{
    let mut out: Vec<TupleKey> = Vec::new();
    let mut i: usize = 0;
    while i < users.len()
        invariant
            i <= users.len(),
            key_views(out@) =~= role_user_tuples_spec(org_id@, role_name@, string_views(users@)).subrange(0, i as int),
        decreases users.len() - i,
    {
        let k = get_user_crole_tuple(org_id, role_name, users[i].as_str());
        let ghost before = key_views(out@);
        out.push(k);
        proof {
            assert(key_views(out@) =~= before.push(k@));
        }
        i = i + 1;
    }
    out
}

/// The custom roles that `permitted` names, ignoring ASCII case, in order; all of them
/// when there is no such list.
pub open spec fn permitted_spec(all: Seq<Seq<char>>, permitted: Option<Seq<Seq<char>>>) -> Seq<Seq<char>> {
    match permitted {
        Some(p) => all.filter(|n: Seq<char>| taken(p, n)),
        None => all,
    }
}

/// Keeps the names that `permitted` allows, ignoring ASCII case.
pub fn filter_permitted(all: Vec<String>, permitted: &Option<Vec<String>>) -> (r: Vec<String>)
    ensures
        string_views(r@) == permitted_spec(
            string_views(all@),
            match permitted {
                Some(p) => Some(string_views(p@)),
                None => None,
            },
        ),
{
    match permitted {
        None => all,
        Some(p) => {
            let ghost av = string_views(all@);
            let ghost pv = string_views(p@);
            let ghost pred = |n: Seq<char>| taken(pv, n);
            let mut out: Vec<String> = Vec::new();
            let mut i: usize = 0;
            proof {
                assert(av.subrange(0, 0).filter(pred) =~= Seq::<Seq<char>>::empty());
                assert(string_views(out@) =~= Seq::<Seq<char>>::empty());
            }
            while i < all.len()
                invariant
                    av == string_views(all@),
                    pv == string_views(p@),
                    pred == (|n: Seq<char>| taken(pv, n)),
                    i <= all.len(),
                    string_views(out@) == av.subrange(0, i as int).filter(pred),
                decreases all.len() - i,
            {
                proof {
                    assert(av.subrange(0, i + 1) =~= av.subrange(0, i as int).push(av[i as int]));
                    av.subrange(0, i as int).lemma_filter_push(av[i as int], pred);
                }
                if find_ci(p, all[i].as_str()) {
                    let ghost before = string_views(out@);
                    out.push(owned(all[i].as_str()));
                    proof {
                        assert(string_views(out@) =~= before.push(av[i as int]));
                    }
                }
                i = i + 1;
            }
            proof {
                assert(av.subrange(0, all.len() as int) =~= av);
            }
            out
        },
    }
}

/// A role's details from its users: the label capitalized, both timestamps the current time.
pub fn get_role(role_name: &str, users: Vec<String>) -> (r: RoleResponse)
    ensures
        r.name@ == role_name@,
        r.label@ == capitalize_spec(role_name@),
        r.users == users,
        r.created_at == r.updated_at,
{
    let now = crate::id::now_micros();
    RoleResponse { name: owned(role_name), label: capitalize(role_name), users, created_at: now, updated_at: now }
}

} // verus!
