//! Properties that relate several operations, proved over the store as a set of tuples.
use crate::checker::{is_root_spec, plan_spec, PlanView};
use crate::codec::{group_type_spec, role_type_spec, user_type_spec};
use crate::groups::{group_prefix_spec, group_role_tuples_spec, group_user_tuples_spec};
use crate::names::{lemma_strip_all_contains, strip_all};
use crate::roles::{is_system_role_spec, listed_role, role_list_set, role_prefix_spec, role_user_tuples_spec};
use crate::store::{apply_write, objects_of, read_spec, users_of, StoreState};
use crate::text::{lemma_strip_concat, strip_spec};
use crate::tuples::{group_member_spec, group_role_spec, user_crole_spec};
use crate::types::{FilterView, TupleView};
use vstd::prelude::*;

verus! {

/// A system role never shows among an org's listed custom roles, whatever the store holds.
pub proof fn law_system_roles_never_listed(org: Seq<char>, ts: Seq<TupleView>, name: Seq<char>)
    requires
        is_system_role_spec(name),
    ensures
        !role_list_set(org, ts).contains(name),
{
    if role_list_set(org, ts).contains(name) {
        let i = choose|i: int| 0 <= i < ts.len() && listed_role(org, ts[i]) == Some(name);
        assert(listed_role(org, ts[i]) == Some(name));
    }
}

/// A root caller (any ASCII case of "root") is allowed without consulting the store, for
/// every object and method and whether or not checking is on.
pub proof fn law_root_bypass(
    enabled: bool,
    org: Seq<char>,
    user: Seq<char>,
    method: Seq<char>,
    object: Seq<char>,
    role: Seq<char>,
)
    requires
        is_root_spec(role),
    ensures
        plan_spec(enabled, org, user, method, object, role) == PlanView::Allow,
{
}

/// The read that finds a role's users.
pub open spec fn role_users_read(org: Seq<char>, role: Seq<char>) -> FilterView {
    (None, Some("assigned"@), Some(role_type_spec(org, role)))
}

/// The users of a role in a store: the `user:` subjects of the tuples that read finds.
pub open spec fn role_users_in(s: StoreState, org: Seq<char>, role: Seq<char>) -> Set<Seq<char>> {
    Set::new(|u: Seq<char>| exists|t: TupleView| #[trigger] read_spec(s, role_users_read(org, role)).contains(t)
        && strip_spec(t.0, "user:"@) == Some(u))
}

/// The users that `get_role_users` lists from a read of a store are the role's users there.
pub proof fn law_role_users_from_read(s: StoreState, org: Seq<char>, role: Seq<char>, ts: Seq<TupleView>)
    requires
        ts.to_set() == read_spec(s, role_users_read(org, role)),
    ensures
        strip_all(users_of(ts), "user:"@).to_set() == role_users_in(s, org, role),
{
    assert forall|u: Seq<char>| strip_all(users_of(ts), "user:"@).to_set().contains(u) <==> role_users_in(
        s,
        org,
        role,
    ).contains(u) by {
        lemma_strip_all_contains(users_of(ts), "user:"@, u);
        if strip_all(users_of(ts), "user:"@).contains(u) {
            let i = choose|i: int| 0 <= i < users_of(ts).len() && strip_spec(users_of(ts)[i], "user:"@) == Some(u);
            assert(ts.to_set().contains(ts[i]));
        }
        if role_users_in(s, org, role).contains(u) {
            let t = choose|t: TupleView| #[trigger] read_spec(s, role_users_read(org, role)).contains(t)
                && strip_spec(t.0, "user:"@) == Some(u);
            assert(ts.to_set().contains(t));
            let i = choose|i: int| 0 <= i < ts.len() && ts[i] == t;
            assert(users_of(ts)[i] == t.0);
        }
    }
    assert(strip_all(users_of(ts), "user:"@).to_set() =~= role_users_in(s, org, role));
}

proof fn lemma_strip_inverse(o: Seq<char>, p: Seq<char>, x: Seq<char>)
    requires
        strip_spec(o, p) == Some(x),
    ensures
        o == p + x,
{
    assert(o =~= o.subrange(0, p.len() as int) + o.subrange(p.len() as int, o.len() as int));
    assert(o.subrange(0, p.len() as int) =~= p);
}

/// Adding users to a role and then removing the same users leaves the role with exactly
/// the users it had before, less those; so a role that had no other users has none.
pub proof fn law_role_users_round_trip(s: StoreState, org: Seq<char>, role: Seq<char>, users: Seq<Seq<char>>)
    ensures
        ({
            let w = role_user_tuples_spec(org, role, users);
            let after = apply_write(apply_write(s, w, Seq::empty()), Seq::empty(), w);
            &&& role_users_in(after, org, role) == role_users_in(s, org, role).difference(users.to_set())
            &&& role_users_in(s, org, role).subset_of(users.to_set()) ==> role_users_in(after, org, role).is_empty()
        }),
{
    let w = role_user_tuples_spec(org, role, users);
    let s1 = apply_write(s, w, Seq::empty());
    let after = apply_write(s1, Seq::empty(), w);
    let f = role_users_read(org, role);
    reveal_strlit("user:");
    assert forall|u: Seq<char>| #[trigger] role_users_in(after, org, role).contains(u) <==> (role_users_in(
        s,
        org,
        role,
    ).contains(u) && !users.to_set().contains(u)) by {
        if role_users_in(after, org, role).contains(u) {
            let t = choose|t: TupleView| #[trigger] read_spec(after, f).contains(t) && strip_spec(t.0, "user:"@)
                == Some(u);
            assert(!w.to_set().contains(t));
            assert(read_spec(s, f).contains(t));
            lemma_strip_inverse(t.0, "user:"@, u);
            if users.to_set().contains(u) {
                let k = choose|k: int| 0 <= k < users.len() && users[k] == u;
                assert(w[k] == user_crole_spec(org, role, u));
                assert(t == user_crole_spec(org, role, u));
                assert(w.to_set().contains(w[k]));
            }
        }
        if role_users_in(s, org, role).contains(u) && !users.to_set().contains(u) {
            let t = choose|t: TupleView| #[trigger] read_spec(s, f).contains(t) && strip_spec(t.0, "user:"@)
                == Some(u);
            lemma_strip_inverse(t.0, "user:"@, u);
            if w.to_set().contains(t) {
                let k = choose|k: int| 0 <= k < w.len() && w[k] == t;
                assert(w[k] == user_crole_spec(org, role, users[k]));
                assert("user:"@ + users[k] == "user:"@ + u);
                assert(users[k] =~= ("user:"@ + users[k]).subrange(5, ("user:"@ + users[k]).len() as int));
                assert(u =~= ("user:"@ + u).subrange(5, ("user:"@ + u).len() as int));
                assert(users.to_set().contains(users[k]));
            }
            assert(read_spec(after, f).contains(t));
        }
    }
    assert(role_users_in(after, org, role) =~= role_users_in(s, org, role).difference(users.to_set()));
}

/// The roles of a user in an org in a store: those assigned directly, and those assigned
/// to a group of the org that the user is a member of.
pub open spec fn user_roles_in(s: StoreState, org: Seq<char>, u: Seq<char>) -> Set<Seq<char>> {
    Set::new(|r: Seq<char>| direct_role(s, org, u, r) || group_role(s, org, u, r))
}

pub open spec fn direct_role(s: StoreState, org: Seq<char>, u: Seq<char>, r: Seq<char>) -> bool {
    exists|o: Seq<char>| #[trigger] s.contains((user_type_spec(u), "assigned"@, o)) && strip_spec(o, role_prefix_spec(org)) == Some(r)
}

pub open spec fn group_role(s: StoreState, org: Seq<char>, u: Seq<char>, r: Seq<char>) -> bool {
    exists|o1: Seq<char>, g: Seq<char>, o: Seq<char>|
        #[trigger] s.contains((user_type_spec(u), "member"@, o1)) && strip_spec(o1, group_prefix_spec(org))
            == Some(g) && #[trigger] s.contains((group_type_spec(org, g), "grp_assigned"@, o)) && strip_spec(
            o,
            role_prefix_spec(org),
        ) == Some(r)
}

proof fn lemma_prefix_forms(org: Seq<char>, g: Seq<char>, r: Seq<char>)
    ensures
        group_type_spec(org, g) == group_prefix_spec(org) + g,
        role_type_spec(org, r) == role_prefix_spec(org) + r,
        strip_spec(group_type_spec(org, g), group_prefix_spec(org)) == Some(g),
        strip_spec(role_type_spec(org, r), role_prefix_spec(org)) == Some(r),
{
    assert(group_type_spec(org, g) =~= group_prefix_spec(org) + g);
    assert(role_type_spec(org, r) =~= role_prefix_spec(org) + r);
    lemma_strip_concat(group_prefix_spec(org), g);
    lemma_strip_concat(role_prefix_spec(org), r);
}

proof fn lemma_group_type_injective(org: Seq<char>, g1: Seq<char>, g2: Seq<char>)
    requires
        group_type_spec(org, g1) == group_type_spec(org, g2),
    ensures
        g1 == g2,
{
    lemma_prefix_forms(org, g1, g1);
    lemma_prefix_forms(org, g2, g2);
}

proof fn lemma_relations_differ()
    ensures
        "assigned"@ != "member"@,
        "assigned"@ != "grp_assigned"@,
        "member"@ != "grp_assigned"@,
{
    reveal_strlit("assigned");
    reveal_strlit("member");
    reveal_strlit("grp_assigned");
    assert("assigned"@.len() != "member"@.len());
    assert("assigned"@[0] != "grp_assigned"@[0]);
    assert("member"@.len() != "grp_assigned"@.len());
}

/// A role given to a group reaches every member of the group; taking away either the
/// membership or the group's role takes the role away again from a user who had it by no
/// other path; and repeating the same additions changes nothing.
pub proof fn law_group_roles_reach_members(s: StoreState, org: Seq<char>, g: Seq<char>, u: Seq<char>, r: Seq<char>)
    ensures
        ({
            let add_role = group_role_tuples_spec(org, g, seq![r]);
            let add_user = group_user_tuples_spec(org, g, seq![u]);
            let s1 = apply_write(apply_write(s, add_role, Seq::empty()), add_user, Seq::empty());
            &&& user_roles_in(s1, org, u).contains(r)
            &&& !user_roles_in(s, org, u).contains(r) ==> !user_roles_in(
                apply_write(s1, Seq::empty(), add_user),
                org,
                u,
            ).contains(r)
            &&& !user_roles_in(s, org, u).contains(r) ==> !user_roles_in(
                apply_write(s1, Seq::empty(), add_role),
                org,
                u,
            ).contains(r)
            &&& apply_write(apply_write(s1, add_role, Seq::empty()), add_user, Seq::empty()) == s1
        }),
{
    let gr = group_role_spec(org, g, r);
    let m = group_member_spec(org, g, u);
    let add_role = group_role_tuples_spec(org, g, seq![r]);
    let add_user = group_user_tuples_spec(org, g, seq![u]);
    assert(add_role =~= seq![gr]);
    assert(add_user =~= seq![m]);
    assert(seq![gr].to_set() =~= set![gr]) by {
        assert(seq![gr][0] == gr);
    }
    assert(seq![m].to_set() =~= set![m]) by {
        assert(seq![m][0] == m);
    }
    assert(Seq::<TupleView>::empty().to_set() =~= Set::<TupleView>::empty());
    let s1 = apply_write(apply_write(s, add_role, Seq::empty()), add_user, Seq::empty());
    assert(s1 =~= s.insert(gr).insert(m));
    lemma_prefix_forms(org, g, r);
    lemma_relations_differ();
    // the role reaches the member
    assert(s1.contains((user_type_spec(u), "member"@, group_type_spec(org, g))));
    assert(s1.contains((group_type_spec(org, g), "grp_assigned"@, role_type_spec(org, r))));
    assert(group_role(s1, org, u, r));
    assert(user_roles_in(s1, org, u).contains(r));
    // removing the membership
    let s2 = apply_write(s1, Seq::empty(), add_user);
    assert(s2 =~= s.insert(gr).insert(m).remove(m));
    if !user_roles_in(s, org, u).contains(r) && user_roles_in(s2, org, u).contains(r) {
        if direct_role(s2, org, u, r) {
            let o = choose|o: Seq<char>| #[trigger] s2.contains((user_type_spec(u), "assigned"@, o)) && strip_spec(
                o,
                role_prefix_spec(org),
            ) == Some(r);
            assert(s.contains((user_type_spec(u), "assigned"@, o)));
            assert(direct_role(s, org, u, r));
        } else {
            let (o1, g1, o) = choose|o1: Seq<char>, g1: Seq<char>, o: Seq<char>|
                #[trigger] s2.contains((user_type_spec(u), "member"@, o1)) && strip_spec(o1, group_prefix_spec(org))
                    == Some(g1) && #[trigger] s2.contains((group_type_spec(org, g1), "grp_assigned"@, o))
                    && strip_spec(o, role_prefix_spec(org)) == Some(r);
            assert(s.contains((user_type_spec(u), "member"@, o1)));
            if s.contains((group_type_spec(org, g1), "grp_assigned"@, o)) {
                assert(group_role(s, org, u, r));
            } else {
                assert((group_type_spec(org, g1), "grp_assigned"@, o) == gr);
                lemma_group_type_injective(org, g1, g);
                lemma_strip_inverse(o1, group_prefix_spec(org), g1);
                assert((user_type_spec(u), "member"@, o1) == m);
            }
        }
        assert(user_roles_in(s, org, u).contains(r));
    }
    // removing the group's role
    let s3 = apply_write(s1, Seq::empty(), add_role);
    assert(s3 =~= s.insert(gr).insert(m).remove(gr));
    if !user_roles_in(s, org, u).contains(r) && user_roles_in(s3, org, u).contains(r) {
        if direct_role(s3, org, u, r) {
            let o = choose|o: Seq<char>| #[trigger] s3.contains((user_type_spec(u), "assigned"@, o)) && strip_spec(
                o,
                role_prefix_spec(org),
            ) == Some(r);
            assert(s.contains((user_type_spec(u), "assigned"@, o)));
            assert(direct_role(s, org, u, r));
        } else {
            let (o1, g1, o) = choose|o1: Seq<char>, g1: Seq<char>, o: Seq<char>|
                #[trigger] s3.contains((user_type_spec(u), "member"@, o1)) && strip_spec(o1, group_prefix_spec(org))
                    == Some(g1) && #[trigger] s3.contains((group_type_spec(org, g1), "grp_assigned"@, o))
                    && strip_spec(o, role_prefix_spec(org)) == Some(r);
            assert(s.contains((group_type_spec(org, g1), "grp_assigned"@, o)));
            if s.contains((user_type_spec(u), "member"@, o1)) {
                assert(group_role(s, org, u, r));
            } else {
                assert((user_type_spec(u), "member"@, o1) == m);
                lemma_strip_inverse(o1, group_prefix_spec(org), g1);
                lemma_prefix_forms(org, g1, r);
                assert(group_prefix_spec(org) + g1 == group_prefix_spec(org) + g);
                assert(g1 =~= (group_prefix_spec(org) + g1).subrange(
                    group_prefix_spec(org).len() as int,
                    (group_prefix_spec(org) + g1).len() as int,
                ));
                assert(g =~= (group_prefix_spec(org) + g).subrange(
                    group_prefix_spec(org).len() as int,
                    (group_prefix_spec(org) + g).len() as int,
                ));
                lemma_strip_inverse(o, role_prefix_spec(org), r);
                assert((group_type_spec(org, g1), "grp_assigned"@, o) == gr);
            }
        }
        assert(user_roles_in(s, org, u).contains(r));
    }
    // repeating the additions
    assert(apply_write(apply_write(s1, add_role, Seq::empty()), add_user, Seq::empty()) =~= s1);
}

/// The read of a user's direct role assignments.
pub open spec fn user_direct_read(u: Seq<char>) -> FilterView {
    (Some(user_type_spec(u)), Some("assigned"@), None)
}

/// The read of a user's group memberships.
pub open spec fn user_groups_read(u: Seq<char>) -> FilterView {
    (Some(user_type_spec(u)), Some("member"@), None)
}

/// The read of a group's roles.
pub open spec fn group_roles_read(org: Seq<char>, g: Seq<char>) -> FilterView {
    (Some(group_type_spec(org, g)), Some("grp_assigned"@), None)
}

/// What the reads of the roles of the org's groups named in `members` return.
pub open spec fn roles_of_groups_read(s: StoreState, org: Seq<char>, members: Seq<TupleView>) -> Set<TupleView> {
    Set::new(|t: TupleView| exists|g: Seq<char>|
        #[trigger] strip_all(objects_of(members), group_prefix_spec(org)).contains(g) && read_spec(
            s,
            group_roles_read(org, g),
        ).contains(t))
}

/// Given reads of a store for a user's direct roles, for the user's memberships, and for
/// the roles of each of the org's groups among those, `get_user_roles` yields exactly the
/// user's roles in that store.
pub proof fn law_user_roles_from_reads(
    s: StoreState,
    org: Seq<char>,
    u: Seq<char>,
    direct: Seq<TupleView>,
    members: Seq<TupleView>,
    via_groups: Seq<TupleView>,
)
    requires
        direct.to_set() == read_spec(s, user_direct_read(u)),
        members.to_set() == read_spec(s, user_groups_read(u)),
        via_groups.to_set() == roles_of_groups_read(s, org, members),
    ensures
        strip_all(objects_of(direct), role_prefix_spec(org)).to_set() + strip_all(objects_of(via_groups), role_prefix_spec(org)).to_set()
            == user_roles_in(s, org, u),
{
    let rp = role_prefix_spec(org);
    let gp = group_prefix_spec(org);
    assert forall|r: Seq<char>| #[trigger] user_roles_in(s, org, u).contains(r) <==> (strip_all(
        objects_of(direct),
        rp,
    ).contains(r) || strip_all(objects_of(via_groups), rp).contains(r)) by {
        lemma_strip_all_contains(objects_of(direct), rp, r);
        lemma_strip_all_contains(objects_of(via_groups), rp, r);
        if strip_all(objects_of(direct), rp).contains(r) {
            let i = choose|i: int| 0 <= i < objects_of(direct).len() && strip_spec(objects_of(direct)[i], rp) == Some(r);
            assert(direct.to_set().contains(direct[i]));
            assert(s.contains((user_type_spec(u), "assigned"@, direct[i].2)));
            assert(direct_role(s, org, u, r));
        }
        if strip_all(objects_of(via_groups), rp).contains(r) {
            let i = choose|i: int| 0 <= i < objects_of(via_groups).len() && strip_spec(objects_of(via_groups)[i], rp) == Some(r);
            assert(via_groups.to_set().contains(via_groups[i]));
            let g = choose|g: Seq<char>| #[trigger] strip_all(objects_of(members), gp).contains(g) && read_spec(
                s,
                group_roles_read(org, g),
            ).contains(via_groups[i]);
            lemma_strip_all_contains(objects_of(members), gp, g);
            let k = choose|k: int| 0 <= k < objects_of(members).len() && strip_spec(objects_of(members)[k], gp) == Some(g);
            assert(members.to_set().contains(members[k]));
            assert(s.contains((user_type_spec(u), "member"@, members[k].2)));
            assert(s.contains((group_type_spec(org, g), "grp_assigned"@, via_groups[i].2)));
            assert(group_role(s, org, u, r));
        }
        if direct_role(s, org, u, r) {
            let o = choose|o: Seq<char>| #[trigger] s.contains((user_type_spec(u), "assigned"@, o)) && strip_spec(o, rp) == Some(r);
            let t = (user_type_spec(u), "assigned"@, o);
            assert(read_spec(s, user_direct_read(u)).contains(t));
            assert(direct.to_set().contains(t));
            let i = choose|i: int| 0 <= i < direct.len() && direct[i] == t;
            assert(objects_of(direct)[i] == o);
        }
        if group_role(s, org, u, r) {
            let (o1, g, o) = choose|o1: Seq<char>, g: Seq<char>, o: Seq<char>|
                #[trigger] s.contains((user_type_spec(u), "member"@, o1)) && strip_spec(o1, gp) == Some(g)
                    && #[trigger] s.contains((group_type_spec(org, g), "grp_assigned"@, o)) && strip_spec(o, rp)
                    == Some(r);
            let m = (user_type_spec(u), "member"@, o1);
            assert(read_spec(s, user_groups_read(u)).contains(m));
            assert(members.to_set().contains(m));
            let k = choose|k: int| 0 <= k < members.len() && members[k] == m;
            assert(objects_of(members)[k] == o1);
            lemma_strip_all_contains(objects_of(members), gp, g);
            let t = (group_type_spec(org, g), "grp_assigned"@, o);
            assert(read_spec(s, group_roles_read(org, g)).contains(t));
            assert(via_groups.to_set().contains(t));
            let i = choose|i: int| 0 <= i < via_groups.len() && via_groups[i] == t;
            assert(objects_of(via_groups)[i] == o);
        }
    }
    assert(strip_all(objects_of(direct), rp).to_set() + strip_all(objects_of(via_groups), rp).to_set() =~= user_roles_in(s, org, u));
}

/// Whether a tuple mentions a group: the group is its object or its user, or the group's
/// `member` userset is its user.
pub open spec fn mentions_group(t: TupleView, g: Seq<char>) -> bool {
    t.2 == g || t.0 == g || t.0 == g + "#member"@
}

/// Deleting everything that the three reads of `delete_group` return leaves no tuple that
/// mentions the group, and keeps every other tuple.
pub proof fn law_group_deletion_removes_all(
    s: StoreState,
    org: Seq<char>,
    group: Seq<char>,
    on_group: Seq<TupleView>,
    grants: Seq<TupleView>,
    as_member: Seq<TupleView>,
)
    requires
        on_group.to_set() == read_spec(s, (None, None, Some(group_type_spec(org, group)))),
        grants.to_set() == read_spec(s, (Some(group_type_spec(org, group)), None, None)),
        as_member.to_set() == read_spec(s, (Some(group_type_spec(org, group) + "#member"@), None, None)),
    ensures
        ({
            let after = apply_write(s, Seq::empty(), on_group + grants + as_member);
            &&& forall|t: TupleView| after.contains(t) ==> !mentions_group(t, group_type_spec(org, group))
            &&& forall|t: TupleView| s.contains(t) && !mentions_group(t, group_type_spec(org, group)) ==> after.contains(t)
        }),
{
    let g = group_type_spec(org, group);
    let d = on_group + grants + as_member;
    assert forall|t: TupleView| d.to_set().contains(t) <==> (s.contains(t) && mentions_group(t, g)) by {
        if d.to_set().contains(t) {
            let i = choose|i: int| 0 <= i < d.len() && d[i] == t;
            if i < on_group.len() {
                assert(on_group.to_set().contains(on_group[i]));
            } else if i < on_group.len() + grants.len() {
                assert(grants.to_set().contains(grants[i - on_group.len()]));
            } else {
                assert(as_member.to_set().contains(as_member[i - on_group.len() - grants.len()]));
            }
        }
        if s.contains(t) && mentions_group(t, g) {
            if t.2 == g {
                assert(read_spec(s, (None, None, Some(g))).contains(t));
                let i = choose|i: int| 0 <= i < on_group.len() && on_group[i] == t;
                assert(d[i] == t);
            } else if t.0 == g {
                assert(read_spec(s, (Some(g), None, None)).contains(t));
                let i = choose|i: int| 0 <= i < grants.len() && grants[i] == t;
                assert(d[on_group.len() + i] == t);
            } else {
                assert(read_spec(s, (Some(g + "#member"@), None, None)).contains(t));
                let i = choose|i: int| 0 <= i < as_member.len() && as_member[i] == t;
                assert(d[on_group.len() + grants.len() + i] == t);
            }
        }
    }
    assert(Seq::<TupleView>::empty().to_set() =~= Set::<TupleView>::empty());
}

} // verus!
