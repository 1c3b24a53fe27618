//! The administration-side permission names, entity grants, and role and group change
//! requests.
use crate::text::{first_index_of, lower_of, owned, str_eq, to_lower, to_upper, upper_of};
use std::collections::HashSet;
use vstd::prelude::*;
use vstd::string::*;

verus! {

/// A permission level on resources, as role grants name it.
#[derive(Debug, Clone, Copy, PartialEq, Eq, Structural, Hash)]
pub enum Permission {
    AllowAll,
    AllowList,
    AllowGet,
    AllowPost,
    AllowPut,
    AllowDelete,
}

/// The grant relation of a permission.
pub open spec fn grant_relation_spec(p: Permission) -> Seq<char> {
    match p {
        Permission::AllowAll => "ALLOW_ALL"@,
        Permission::AllowList => "ALLOW_LIST"@,
        Permission::AllowGet => "ALLOW_GET"@,
        Permission::AllowPost => "ALLOW_POST"@,
        Permission::AllowPut => "ALLOW_PUT"@,
        Permission::AllowDelete => "ALLOW_DELETE"@,
    }
}

/// The check relation of a permission.
pub open spec fn internal_relation_spec(p: Permission) -> Seq<char> {
    match p {
        Permission::AllowAll => "admin"@,
        Permission::AllowList => "can_list"@,
        Permission::AllowGet => "can_read"@,
        Permission::AllowPost => "can_create"@,
        Permission::AllowPut => "can_update"@,
        Permission::AllowDelete => "can_delete"@,
    }
}

/// The permission an upper-cased HTTP method asks for.
pub open spec fn method_permission(m: Seq<char>, is_list: bool) -> Permission {
    if m == "GET"@ {
        if is_list {
            Permission::AllowList
        } else {
            Permission::AllowGet
        }
    } else if m == "POST"@ {
        Permission::AllowPost
    } else if m == "PUT"@ || m == "PATCH"@ {
        Permission::AllowPut
    } else if m == "DELETE"@ {
        Permission::AllowDelete
    } else {
        Permission::AllowGet
    }
}

/// The permission a lower-cased name stands for: the permission's own name, its
/// underscored form, or its check relation.
pub open spec fn permission_named(s: Seq<char>) -> Option<Permission> {
    if s == "allowall"@ || s == "allow_all"@ || s == "admin"@ {
        Some(Permission::AllowAll)
    } else if s == "allowlist"@ || s == "allow_list"@ || s == "can_list"@ {
        Some(Permission::AllowList)
    } else if s == "allowget"@ || s == "allow_get"@ || s == "can_read"@ {
        Some(Permission::AllowGet)
    } else if s == "allowpost"@ || s == "allow_post"@ || s == "can_create"@ {
        Some(Permission::AllowPost)
    } else if s == "allowput"@ || s == "allow_put"@ || s == "can_update"@ {
        Some(Permission::AllowPut)
    } else if s == "allowdelete"@ || s == "allow_delete"@ || s == "can_delete"@ {
        Some(Permission::AllowDelete)
    } else {
        None
    }
}

impl Permission {
    /// The grant relation, `ALLOW_*`.
    pub fn to_relation(&self) -> (r: &'static str)
        ensures
            r@ == grant_relation_spec(*self),
    {
        match self {
            Permission::AllowAll => "ALLOW_ALL",
            Permission::AllowList => "ALLOW_LIST",
            Permission::AllowGet => "ALLOW_GET",
            Permission::AllowPost => "ALLOW_POST",
            Permission::AllowPut => "ALLOW_PUT",
            Permission::AllowDelete => "ALLOW_DELETE",
        }
    }

    /// The relation a check evaluates.
    pub fn to_internal_relation(&self) -> (r: &'static str)
        ensures
            r@ == internal_relation_spec(*self),
    {
        match self {
            Permission::AllowAll => "admin",
            Permission::AllowList => "can_list",
            Permission::AllowGet => "can_read",
            Permission::AllowPost => "can_create",
            Permission::AllowPut => "can_update",
            Permission::AllowDelete => "can_delete",
        }
    }

    /// The permission an HTTP method asks for; `is_list` marks a listing GET.
    pub fn from_method(method: &str, is_list: bool) -> (r: Permission)
        ensures
            r == method_permission(upper_of(method@), is_list),
    {
        let upper = to_upper(method);
        Permission::from_upper_method(upper.as_str(), is_list)
    }

    /// The permission an already upper-cased HTTP method asks for.
    pub fn from_upper_method(method: &str, is_list: bool) -> (r: Permission)
        ensures
            r == method_permission(method@, is_list),
    {
        if str_eq(method, "GET") {
            if is_list {
                Permission::AllowList
            } else {
                Permission::AllowGet
            }
        } else if str_eq(method, "POST") {
            Permission::AllowPost
        } else if str_eq(method, "PUT") || str_eq(method, "PATCH") {
            Permission::AllowPut
        } else if str_eq(method, "DELETE") {
            Permission::AllowDelete
        } else {
            Permission::AllowGet
        }
    }

    /// Parses a permission name or check relation, ignoring case.
    pub fn from_str(s: &str) -> (r: Option<Permission>)
        ensures
            r == permission_named(lower_of(s@)),
    {
        let lower = to_lower(s);
        Permission::from_lowercase(lower.as_str())
    }

    /// Parses an already lower-cased permission name or check relation.
    pub fn from_lowercase(s: &str) -> (r: Option<Permission>)
        ensures
            r == permission_named(s@),
    {
        if str_eq(s, "allowall") || str_eq(s, "allow_all") || str_eq(s, "admin") {
            Some(Permission::AllowAll)
        } else if str_eq(s, "allowlist") || str_eq(s, "allow_list") || str_eq(s, "can_list") {
            Some(Permission::AllowList)
        } else if str_eq(s, "allowget") || str_eq(s, "allow_get") || str_eq(s, "can_read") {
            Some(Permission::AllowGet)
        } else if str_eq(s, "allowpost") || str_eq(s, "allow_post") || str_eq(s, "can_create") {
            Some(Permission::AllowPost)
        } else if str_eq(s, "allowput") || str_eq(s, "allow_put") || str_eq(s, "can_update") {
            Some(Permission::AllowPut)
        } else if str_eq(s, "allowdelete") || str_eq(s, "allow_delete") || str_eq(s, "can_delete") {
            Some(Permission::AllowDelete)
        } else {
            None
        }
    }

    /// Every permission, in declaration order.
    pub fn all() -> (r: Vec<Permission>)
        ensures
            r@ == seq![
                Permission::AllowAll,
                Permission::AllowList,
                Permission::AllowGet,
                Permission::AllowPost,
                Permission::AllowPut,
                Permission::AllowDelete,
            ],
    {
        let mut v: Vec<Permission> = Vec::new();
        v.push(Permission::AllowAll);
        v.push(Permission::AllowList);
        v.push(Permission::AllowGet);
        v.push(Permission::AllowPost);
        v.push(Permission::AllowPut);
        v.push(Permission::AllowDelete);
        proof {
            assert(v@ =~= seq![
                Permission::AllowAll,
                Permission::AllowList,
                Permission::AllowGet,
                Permission::AllowPost,
                Permission::AllowPut,
                Permission::AllowDelete,
            ]);
        }
        v
    }

    /// The permission's name.
    pub fn name(&self) -> (r: &'static str)
        ensures
            r@ == match *self {
                Permission::AllowAll => "AllowAll"@,
                Permission::AllowList => "AllowList"@,
                Permission::AllowGet => "AllowGet"@,
                Permission::AllowPost => "AllowPost"@,
                Permission::AllowPut => "AllowPut"@,
                Permission::AllowDelete => "AllowDelete"@,
            },
    {
        match self {
            Permission::AllowAll => "AllowAll",
            Permission::AllowList => "AllowList",
            Permission::AllowGet => "AllowGet",
            Permission::AllowPost => "AllowPost",
            Permission::AllowPut => "AllowPut",
            Permission::AllowDelete => "AllowDelete",
        }
    }
}

/// A permission granted on an object `resource_type:entity_id`.
#[derive(Debug, Clone)]
pub struct O2EntityAuthorization {
    pub object: String,
    pub permission: Permission,
}

/// The text before the first `:`, or all of it when there is none.
pub open spec fn first_segment(s: Seq<char>) -> Seq<char> {
    match first_index_of(s, ':') {
        Some(i) => s.subrange(0, i),
        None => s,
    }
}

/// The text between the first and the second `:` (or the end); none without a `:`.
pub open spec fn second_segment(s: Seq<char>) -> Option<Seq<char>> {
    match first_index_of(s, ':') {
        Some(i) => Some(first_segment(s.subrange(i + 1, s.len() as int))),
        None => None,
    }
}

impl O2EntityAuthorization {
    /// A grant of `permission` on `object`.
    pub fn new(object: &str, permission: Permission) -> (r: O2EntityAuthorization)
        ensures
            r.object@ == object@,
            r.permission == permission,
    {
        O2EntityAuthorization { object: owned(object), permission }
    }

    /// The resource type: the object up to its first `:`.
    pub fn resource_type(&self) -> (r: Option<&str>)
        ensures
            r matches Some(t) && t@ == first_segment(self.object@),
    {
        let s = self.object.as_str();
        Some(segment_before_colon(s))
    }

    /// The entity id: the object between its first and second `:`.
    pub fn entity_id(&self) -> (r: Option<&str>)
        ensures
            r matches Some(t) ==> second_segment(self.object@) == Some(t@),
            r is None ==> second_segment(self.object@) is None,
    {
        let s = self.object.as_str();
        match crate::text::find_char(s, ':') {
            Some(i) => {
                let n = s.unicode_len();
                let rest = s.substring_char(i + 1, n);
                Some(segment_before_colon(rest))
            },
            None => None,
        }
    }
}

fn segment_before_colon<'a>(s: &'a str) -> (r: &'a str)
    ensures
        r@ == first_segment(s@),
{
    match crate::text::find_char(s, ':') {
        Some(i) => s.substring_char(0, i),
        None => s,
    }
}

/// A change to a role: grants to add and remove, users to add and remove.
#[derive(Debug, Clone, Default)]
pub struct RoleRequest {
    pub add: Vec<O2EntityAuthorization>,
    pub remove: Vec<O2EntityAuthorization>,
    pub add_users: Option<HashSet<String>>,
    pub remove_users: Option<HashSet<String>>,
}

/// An absent or empty set of names.
pub open spec fn no_names(s: Option<HashSet<String>>) -> bool {
    match s {
        Some(u) => u@.is_empty(),
        None => true,
    }
}

fn none_or_empty(s: &Option<HashSet<String>>) -> (r: bool)
    ensures
        r == no_names(*s),
{
    match s {
        Some(u) => u.is_empty(),
        None => true,
    }
}

impl RoleRequest {
    /// A request that changes nothing.
    pub fn new() -> (r: RoleRequest)
        ensures
            r.add@.len() == 0,
            r.remove@.len() == 0,
            r.add_users is None,
            r.remove_users is None,
    {
        RoleRequest { add: Vec::new(), remove: Vec::new(), add_users: None, remove_users: None }
    }

    /// Adds a grant to add.
    pub fn with_add(self, authorization: O2EntityAuthorization) -> (r: RoleRequest)
        ensures
            r.add@ == self.add@.push(authorization),
            r.remove@ == self.remove@,
            r.add_users == self.add_users,
            r.remove_users == self.remove_users,
    {
        let mut s = self;
        s.add.push(authorization);
        s
    }

    /// Adds a grant to remove.
    pub fn with_remove(self, authorization: O2EntityAuthorization) -> (r: RoleRequest)
        ensures
            r.remove@ == self.remove@.push(authorization),
            r.add@ == self.add@,
            r.add_users == self.add_users,
            r.remove_users == self.remove_users,
    {
        let mut s = self;
        s.remove.push(authorization);
        s
    }

    /// Sets the users to add.
    pub fn with_add_users(self, users: HashSet<String>) -> (r: RoleRequest)
        ensures
            r.add_users == Some(users),
            r.add@ == self.add@,
            r.remove@ == self.remove@,
            r.remove_users == self.remove_users,
    {
        let mut s = self;
        s.add_users = Some(users);
        s
    }

    /// Sets the users to remove.
    pub fn with_remove_users(self, users: HashSet<String>) -> (r: RoleRequest)
        ensures
            r.remove_users == Some(users),
            r.add@ == self.add@,
            r.remove@ == self.remove@,
            r.add_users == self.add_users,
    {
        let mut s = self;
        s.remove_users = Some(users);
        s
    }

    /// Whether the request changes nothing.
    pub fn is_empty(&self) -> (r: bool)
        ensures
            r == (self.add@.len() == 0 && self.remove@.len() == 0 && no_names(self.add_users) && no_names(
                self.remove_users,
            )),
    {
        self.add.len() == 0 && self.remove.len() == 0 && none_or_empty(&self.add_users) && none_or_empty(
            &self.remove_users,
        )
    }
}

/// A change to a group's users and roles.
#[derive(Debug, Clone, Default)]
pub struct GroupRequest {
    pub add_users: Option<HashSet<String>>,
    pub remove_users: Option<HashSet<String>>,
    pub add_roles: Option<HashSet<String>>,
    pub remove_roles: Option<HashSet<String>>,
}

impl GroupRequest {
    /// A request that changes nothing.
    pub fn new() -> (r: GroupRequest)
        ensures
            r.add_users is None,
            r.remove_users is None,
            r.add_roles is None,
            r.remove_roles is None,
    {
        GroupRequest { add_users: None, remove_users: None, add_roles: None, remove_roles: None }
    }

    /// Whether the request changes nothing.
    pub fn is_empty(&self) -> (r: bool)
        ensures
            r == (no_names(self.add_users) && no_names(self.remove_users) && no_names(self.add_roles)
                && no_names(self.remove_roles)),
    {
        none_or_empty(&self.add_users) && none_or_empty(&self.remove_users) && none_or_empty(&self.add_roles)
            && none_or_empty(&self.remove_roles)
    }
}

} // verus!
