//! Groups: creation, listing from ownership and membership tuples, details, deletion,
//! user and role membership, and the two-hop resolution of a user's roles.
use crate::codec::{group_type, group_type_spec, org_type, org_type_spec, user_type, user_type_spec};
use crate::error::Error;
use crate::id::{generate_id, now_micros};
use crate::names::{insert_name, insert_names, strip_all, strip_each, string_views, strictly_sorted};
use crate::roles::{capitalize, capitalize_spec, find_ci, role_prefix_spec, taken};
use crate::store::{objects_of, tuple_objects, tuple_users, users_of};
use crate::text::{cat, cat3, eq_ignore_ascii_case, str_eq, strip_prefix, strip_spec};
use crate::tuples::{get_group_member_tuple, get_group_role_tuple, group_member_spec, group_role_spec};
use crate::types::{key_views, tuple_views, GroupResponse, Tuple, TupleKey, TupleKeyFilter, TupleView};
use vstd::prelude::*;

verus! {

/// The prefix of the group objects of an org: `group:{org}_`.
pub open spec fn group_prefix_spec(org: Seq<char>) -> Seq<char> {
    "group:"@ + org + "_"@
}

/// The tuple that records a new group of an org.
pub open spec fn group_creation_spec(org: Seq<char>, name: Seq<char>) -> TupleView {
    (org_type_spec(org), "owningOrg"@, group_type_spec(org, name))
}

/// Decides a group creation against the org's existing groups: a name already taken
/// (ignoring ASCII case) is refused with `DuplicateEntry`; otherwise the `owningOrg`
/// tuple to write, which makes the group exist even without members.
pub fn create_group(org_id: &str, name: &str, existing: &Vec<String>) -> (r: Result<TupleKey, Error>)
    ensures
        taken(string_views(existing@), name@) <==> r is Err,
        r matches Err(e) ==> e is DuplicateEntry,
        r matches Ok(k) ==> k@ == group_creation_spec(org_id@, name@),
{
    if find_ci(existing, name) {
        return Err(Error::DuplicateEntry(cat("Group already exists: ", name)));
    }
    let group_object = group_type(org_id, name);
    let org_object = org_type(org_id);
    Ok(TupleKey::new(org_object.as_str(), "owningOrg", group_object.as_str()))
}

/// The group that a tuple shows for an org: one the org owns, or one with a member.
pub open spec fn listed_group(org: Seq<char>, t: TupleView) -> Option<Seq<char>> {
    if (t.1 == "owningOrg"@ && t.0 == org_type_spec(org)) || t.1 == "member"@ {
        strip_spec(t.2, group_prefix_spec(org))
    } else {
        None
    }
}

pub open spec fn group_list_set(org: Seq<char>, ts: Seq<TupleView>) -> Set<Seq<char>> {
    Set::new(|n: Seq<char>| exists|i: int| 0 <= i < ts.len() && listed_group(org, ts[i]) == Some(n))
}

/// The org's groups found in a full read of the store: those the org owns and those with
/// members; sorted, each once.
pub fn list_groups(org_id: &str, tuples: &Vec<Tuple>) -> (r: Vec<String>)
    ensures
        strictly_sorted(string_views(r@)),
        string_views(r@).to_set() == group_list_set(org_id@, tuple_views(tuples@)),
{
    let ghost tv = tuple_views(tuples@);
    let prefix = cat3("group:", org_id, "_");
    let org_user = org_type(org_id);
    let mut out: Vec<String> = Vec::new();
    let mut i: usize = 0;
    proof {
        assert(string_views(out@) =~= Seq::<Seq<char>>::empty());
        assert(string_views(out@).to_set() =~= group_list_set(org_id@, tv.subrange(0, 0)));
    }
    while i < tuples.len()
        invariant
            tv == tuple_views(tuples@),
            prefix@ == group_prefix_spec(org_id@),
            org_user@ == org_type_spec(org_id@),
            i <= tuples.len(),
            strictly_sorted(string_views(out@)),
            string_views(out@).to_set() == group_list_set(org_id@, tv.subrange(0, i as int)),
        decreases tuples.len() - i,
    {
        let t = &tuples[i].key;
        let mut found: Option<String> = None;
        if (str_eq(t.relation.as_str(), "owningOrg") && str_eq(t.user.as_str(), org_user.as_str()))
            || str_eq(t.relation.as_str(), "member") {
            found = strip_prefix(t.object.as_str(), prefix.as_str());
        }
        proof {
            assert(found matches Some(n) ==> listed_group(org_id@, tv[i as int]) == Some(n@));
            assert(found is None ==> listed_group(org_id@, tv[i as int]) is None);
        }
        match found {
            Some(n) => {
                insert_name(&mut out, n.as_str());
            },
            None => {},
        }
        proof {
            let sub = tv.subrange(0, i as int);
            let sub1 = tv.subrange(0, i + 1);
            assert forall|n: Seq<char>| #[trigger] group_list_set(org_id@, sub1).contains(n) <==> (
            group_list_set(org_id@, sub).contains(n) || listed_group(org_id@, tv[i as int]) == Some(
                n,
            )) by {
                if group_list_set(org_id@, sub1).contains(n) {
                    let k = choose|k: int| 0 <= k < sub1.len() && listed_group(org_id@, sub1[k]) == Some(n);
                    if k < i {
                        assert(sub[k] == sub1[k]);
                    }
                }
                if group_list_set(org_id@, sub).contains(n) {
                    let k = choose|k: int| 0 <= k < sub.len() && listed_group(org_id@, sub[k]) == Some(n);
                    assert(sub1[k] == sub[k]);
                }
                if listed_group(org_id@, tv[i as int]) == Some(n) {
                    assert(sub1[i as int] == tv[i as int]);
                }
            }
            assert(string_views(out@).to_set() =~= group_list_set(org_id@, sub1));
        }
        i = i + 1;
    }
    proof {
        assert(tv.subrange(0, tuples.len() as int) =~= tv);
    }
    out
}

/// The read that finds a group's members.
pub fn group_members_filter(org_id: &str, group_name: &str) -> (r: TupleKeyFilter)
    ensures
        r@ == (None::<Seq<char>>, Some("member"@), Some(group_type_spec(org_id@, group_name@))),
{
    let g = group_type(org_id, group_name);
    TupleKeyFilter::on_relation_object("member", g.as_str())
}

/// The read that finds a group's roles.
pub fn group_roles_filter(org_id: &str, group_name: &str) -> (r: TupleKeyFilter)
    ensures
        r@ == (Some(group_type_spec(org_id@, group_name@)), Some("grp_assigned"@), None::<Seq<char>>),
{
    let g = group_type(org_id, group_name);
    TupleKeyFilter::on_user_relation(g.as_str(), "grp_assigned")
}

/// The read that finds any tuple on a group, to tell an empty group from a missing one.
pub fn group_probe_filter(org_id: &str, group_name: &str) -> (r: TupleKeyFilter)
    ensures
        r@ == (None::<Seq<char>>, None::<Seq<char>>, Some(group_type_spec(org_id@, group_name@))),
{
    let g = group_type(org_id, group_name);
    TupleKeyFilter::on_object(g.as_str())
}

/// The members of a group, from its membership tuples: each `user:` subject without the
/// prefix, in order.
pub fn group_users(tuples: &Vec<Tuple>) -> (r: Vec<String>)
    ensures
        string_views(r@) == strip_all(users_of(tuple_views(tuples@)), "user:"@),
{
    let users = tuple_users(tuples);
    strip_each(&users, "user:")
}

/// The roles of the org named by the objects of tuples, in order.
pub fn org_roles_of(org_id: &str, tuples: &Vec<Tuple>) -> (r: Vec<String>)
    ensures
        string_views(r@) == strip_all(objects_of(tuple_views(tuples@)), role_prefix_spec(org_id@)),
{
    let objects = tuple_objects(tuples);
    let prefix = cat3("role:", org_id, "_");
    strip_each(&objects, prefix.as_str())
}

/// Whether a group's details need the existence probe: it has neither members nor roles.
pub fn needs_probe(users: &Vec<String>, roles: &Vec<String>) -> (r: bool)
    ensures
        r == (users@.len() == 0 && roles@.len() == 0),
{
    users.len() == 0 && roles.len() == 0
}

/// A group's details from its members and roles. A group with neither is missing,
/// `GroupNotFound`, when the probe found no tuple on it either. The id is fresh and both
/// timestamps are the current time.
pub fn get_group(group_name: &str, users: Vec<String>, roles: Vec<String>, probe: &Vec<Tuple>) -> (r: Result<
    GroupResponse,
    Error,
>)
    ensures
        (users@.len() == 0 && roles@.len() == 0 && probe@.len() == 0) <==> r is Err,
        r matches Err(e) ==> (e matches Error::GroupNotFound(n) && n@ == group_name@),
        r matches Ok(g) ==> {
            &&& g.name@ == group_name@
            &&& g.display_name matches Some(d) && d@ == capitalize_spec(group_name@)
            &&& g.description is None
            &&& g.users == users
            &&& g.roles == roles
            &&& g.id@.len() == 27
            &&& g.created_at == g.updated_at
        },
{
    if users.len() == 0 && roles.len() == 0 && probe.len() == 0 {
        return Err(Error::GroupNotFound(crate::text::owned(group_name)));
    }
    let now = now_micros();
    Ok(GroupResponse {
        id: generate_id(),
        name: crate::text::owned(group_name),
        display_name: Some(capitalize(group_name)),
        description: None,
        roles,
        users,
        created_at: now,
        updated_at: now,
    })
}

/// The reads that a group deletion needs: every tuple on the group object (its members),
/// every tuple whose user is the group itself (its role grants), and every tuple whose user
/// is the group's `member` userset.
pub fn delete_group(org_id: &str, group_name: &str) -> (r: (TupleKeyFilter, TupleKeyFilter, TupleKeyFilter))
    ensures
        r.0@ == (None::<Seq<char>>, None::<Seq<char>>, Some(group_type_spec(org_id@, group_name@))),
        r.1@ == (Some(group_type_spec(org_id@, group_name@)), None::<Seq<char>>, None::<Seq<char>>),
        r.2@ == (Some(group_type_spec(org_id@, group_name@) + "#member"@), None::<Seq<char>>, None::<Seq<char>>),
{
    let g = group_type(org_id, group_name);
    let member = cat(g.as_str(), "#member");
    (TupleKeyFilter::on_object(g.as_str()), TupleKeyFilter::on_user(g.as_str()), TupleKeyFilter::on_user(member.as_str()))
}

/// The membership tuples of users in a group, one per user, in order.
pub open spec fn group_user_tuples_spec(org: Seq<char>, group: Seq<char>, users: Seq<Seq<char>>) -> Seq<TupleView> {
    users.map_values(|u: Seq<char>| group_member_spec(org, group, u))
}

/// The tuples that add (to write) or remove (to delete) members of a group.
pub fn group_user_tuples(org_id: &str, group_name: &str, users: &Vec<String>) -> (r: Vec<TupleKey>)
    ensures
        key_views(r@) == group_user_tuples_spec(org_id@, group_name@, string_views(users@)),
{
    let mut out: Vec<TupleKey> = Vec::new();
    let mut i: usize = 0;
    while i < users.len()
        invariant
            i <= users.len(),
            key_views(out@) =~= group_user_tuples_spec(org_id@, group_name@, string_views(users@)).subrange(0, i as int),
        decreases users.len() - i,
    {
        let k = get_group_member_tuple(org_id, group_name, users[i].as_str());
        let ghost before = key_views(out@);
        out.push(k);
        proof {
            assert(key_views(out@) =~= before.push(k@));
        }
        i = i + 1;
    }
    out
}

/// The role tuples of a group, one per role, in order.
pub open spec fn group_role_tuples_spec(org: Seq<char>, group: Seq<char>, roles: Seq<Seq<char>>) -> Seq<TupleView> {
    roles.map_values(|r: Seq<char>| group_role_spec(org, group, r))
}

/// The tuples that assign (to write) or unassign (to delete) roles of a group.
pub fn group_role_tuples(org_id: &str, group_name: &str, roles: &Vec<String>) -> (r: Vec<TupleKey>)
    ensures
        key_views(r@) == group_role_tuples_spec(org_id@, group_name@, string_views(roles@)),
{
    let mut out: Vec<TupleKey> = Vec::new();
    let mut i: usize = 0;
    while i < roles.len()
        invariant
            i <= roles.len(),
            key_views(out@) =~= group_role_tuples_spec(org_id@, group_name@, string_views(roles@)).subrange(0, i as int),
        decreases roles.len() - i,
    {
        let k = get_group_role_tuple(org_id, group_name, roles[i].as_str());
        let ghost before = key_views(out@);
        out.push(k);
        proof {
            assert(key_views(out@) =~= before.push(k@));
        }
        i = i + 1;
    }
    out
}

/// The read that finds a user's group memberships.
pub fn user_groups_filter(user_email: &str) -> (r: TupleKeyFilter)
    ensures
        r@ == (Some(user_type_spec(user_email@)), Some("member"@), None::<Seq<char>>),
{
    let u = user_type(user_email);
    TupleKeyFilter::on_user_relation(u.as_str(), "member")
}

/// The read that finds a user's direct role assignments.
pub fn user_direct_roles_filter(user_email: &str) -> (r: TupleKeyFilter)
    ensures
        r@ == (Some(user_type_spec(user_email@)), Some("assigned"@), None::<Seq<char>>),
{
    let u = user_type(user_email);
    TupleKeyFilter::on_user_relation(u.as_str(), "assigned")
}

/// The org's groups of a user, from the user's membership tuples, in order.
pub fn get_user_groups(org_id: &str, tuples: &Vec<Tuple>) -> (r: Vec<String>)
    ensures
        string_views(r@) == strip_all(objects_of(tuple_views(tuples@)), group_prefix_spec(org_id@)),
{
    let objects = tuple_objects(tuples);
    let prefix = cat3("group:", org_id, "_");
    strip_each(&objects, prefix.as_str())
}

/// A user's roles in an org: those assigned directly, from `direct`, and those assigned
/// to the user's groups, from `via_groups` (the role tuples of every group the user is
/// in); sorted, each once.
pub fn get_user_roles(org_id: &str, direct: &Vec<Tuple>, via_groups: &Vec<Tuple>) -> (r: Vec<String>)
    ensures
        strictly_sorted(string_views(r@)),
        string_views(r@).to_set() == strip_all(objects_of(tuple_views(direct@)), role_prefix_spec(org_id@)).to_set()
            + strip_all(objects_of(tuple_views(via_groups@)), role_prefix_spec(org_id@)).to_set(),
{
    let d = org_roles_of(org_id, direct);
    let g = org_roles_of(org_id, via_groups);
    let mut out: Vec<String> = Vec::new();
    proof {
        assert(string_views(out@) =~= Seq::<Seq<char>>::empty());
        assert(string_views(out@).to_set() =~= Set::<Seq<char>>::empty());
    }
    insert_names(&mut out, &d);
    insert_names(&mut out, &g);
    proof {
        assert(Set::<Seq<char>>::empty() + string_views(d@).to_set() =~= string_views(d@).to_set());
    }
    out
}

} // verus!
