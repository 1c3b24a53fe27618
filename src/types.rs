//! Tuple-store wire types, request/response records and the check-side permission.
use crate::text::{lower_of, owned, str_eq, to_lower, to_upper, upper_of};
use std::collections::HashSet;
use vstd::prelude::*;

verus! {

/// The abstract value of a tuple: (user, relation, object).
pub type TupleView = (Seq<char>, Seq<char>, Seq<char>);

/// A relationship tuple: `user` holds `relation` on `object`.
#[derive(Debug, Clone, PartialEq, Eq, Hash)]
pub struct TupleKey {
    pub user: String,
    pub relation: String,
    pub object: String,
}

impl View for TupleKey {
    type V = TupleView;

    open spec fn view(&self) -> TupleView {
        (self.user@, self.relation@, self.object@)
    }
}

/// The views of a sequence of tuple keys.
pub open spec fn key_views(ks: Seq<TupleKey>) -> Seq<TupleView> {
    ks.map_values(|k: TupleKey| k@)
}

impl TupleKey {
    /// A tuple from its three parts.
    pub fn new(user: &str, relation: &str, object: &str) -> (r: TupleKey)
        ensures
            r@ == (user@, relation@, object@),
    {
        TupleKey { user: owned(user), relation: owned(relation), object: owned(object) }
    }

    /// A copy of this tuple with the same three parts.
    pub fn duplicate(&self) -> (r: TupleKey)
        ensures
            r@ == self@,
    {
        TupleKey::new(self.user.as_str(), self.relation.as_str(), self.object.as_str())
    }
}

/// A stored tuple as the store returns it.
#[derive(Debug, Clone)]
pub struct Tuple {
    pub key: TupleKey,
    pub timestamp: Option<String>,
}

/// The views of the keys of a sequence of stored tuples.
pub open spec fn tuple_views(ts: Seq<Tuple>) -> Seq<TupleView> {
    ts.map_values(|t: Tuple| t.key@)
}

/// A check request for one tuple.
#[derive(Debug, Clone)]
pub struct CheckRequest {
    pub tuple_key: TupleKey,
    pub authorization_model_id: Option<String>,
}

/// The answer to a check request.
#[derive(Debug, Clone)]
pub struct CheckResponse {
    pub allowed: bool,
    pub resolution: Option<String>,
}

/// A batch of tuple writes and deletes.
#[derive(Debug, Clone)]
pub struct WriteRequest {
    pub writes: Option<TupleKeys>,
    pub deletes: Option<TupleKeys>,
    pub authorization_model_id: Option<String>,
}

/// A list of tuple keys as the write endpoint takes it.
#[derive(Debug, Clone)]
pub struct TupleKeys {
    pub tuple_keys: Vec<TupleKey>,
}

/// A list-objects request.
#[derive(Debug, Clone)]
pub struct ListObjectsRequest {
    pub user: String,
    pub relation: String,
    pub type_: String,
    pub authorization_model_id: Option<String>,
}

/// The objects a list-objects request found.
#[derive(Debug, Clone)]
pub struct ListObjectsResponse {
    pub objects: Vec<String>,
}

/// A read request for one page of tuples.
#[derive(Debug, Clone)]
pub struct ReadRequest {
    pub tuple_key: Option<TupleKeyFilter>,
    pub page_size: Option<i32>,
    pub continuation_token: Option<String>,
}

/// An equality filter on tuples: each present field must match exactly.
#[derive(Debug, Clone, Default)]
pub struct TupleKeyFilter {
    pub user: Option<String>,
    pub relation: Option<String>,
    pub object: Option<String>,
}

/// The abstract value of a filter.
pub type FilterView = (Option<Seq<char>>, Option<Seq<char>>, Option<Seq<char>>);

pub open spec fn opt_view(o: Option<String>) -> Option<Seq<char>> {
    match o {
        Some(s) => Some(s@),
        None => None,
    }
}

impl View for TupleKeyFilter {
    type V = FilterView;

    open spec fn view(&self) -> FilterView {
        (opt_view(self.user), opt_view(self.relation), opt_view(self.object))
    }
}

/// A field matches when the filter leaves it open or names exactly it.
pub open spec fn field_matches(f: Option<Seq<char>>, v: Seq<char>) -> bool {
    match f {
        Some(x) => x == v,
        None => true,
    }
}

/// What a server-side equality filter on all three fields admits.
pub open spec fn filter_admits(f: FilterView, t: TupleView) -> bool {
    field_matches(f.0, t.0) && field_matches(f.1, t.1) && field_matches(f.2, t.2)
}

impl TupleKeyFilter {
    /// A filter on the object alone.
    pub fn on_object(object: &str) -> (r: TupleKeyFilter)
        ensures
            r@ == (None::<Seq<char>>, None::<Seq<char>>, Some(object@)),
    {
        TupleKeyFilter { user: None, relation: None, object: Some(owned(object)) }
    }

    /// A filter on the user alone.
    pub fn on_user(user: &str) -> (r: TupleKeyFilter)
        ensures
            r@ == (Some(user@), None::<Seq<char>>, None::<Seq<char>>),
    {
        TupleKeyFilter { user: Some(owned(user)), relation: None, object: None }
    }

    /// A filter on the user and the relation.
    pub fn on_user_relation(user: &str, relation: &str) -> (r: TupleKeyFilter)
        ensures
            r@ == (Some(user@), Some(relation@), None::<Seq<char>>),
    {
        TupleKeyFilter { user: Some(owned(user)), relation: Some(owned(relation)), object: None }
    }

    /// A filter on the relation and the object.
    pub fn on_relation_object(relation: &str, object: &str) -> (r: TupleKeyFilter)
        ensures
            r@ == (None::<Seq<char>>, Some(relation@), Some(object@)),
    {
        TupleKeyFilter { user: None, relation: Some(owned(relation)), object: Some(owned(object)) }
    }
}

/// One page of a read.
#[derive(Debug, Clone)]
pub struct ReadResponse {
    pub tuples: Vec<Tuple>,
    pub continuation_token: Option<String>,
}

/// A tuple store.
#[derive(Debug, Clone)]
pub struct Store {
    pub id: String,
    pub name: String,
    pub created_at: Option<String>,
    pub updated_at: Option<String>,
}

/// A request to create a store.
#[derive(Debug, Clone)]
pub struct CreateStoreRequest {
    pub name: String,
}

/// The store that was created.
#[derive(Debug, Clone)]
pub struct CreateStoreResponse {
    pub id: String,
    pub name: String,
}

/// One page of the store listing.
#[derive(Debug, Clone)]
pub struct ListStoresResponse {
    pub stores: Vec<Store>,
    pub continuation_token: Option<String>,
}

/// A request to create a custom role.
#[derive(Debug, Clone)]
pub struct CreateRoleRequest {
    pub role: String,
}

/// A request to change a role's permissions and users.
#[derive(Debug, Clone)]
pub struct UpdateRoleRequest {
    pub add: Option<Vec<PermissionEntry>>,
    pub remove: Option<Vec<PermissionEntry>>,
    pub add_users: Option<HashSet<String>>,
    pub remove_users: Option<HashSet<String>>,
}

/// A permission on an object, as the administration API writes it.
#[derive(Debug, Clone, PartialEq, Eq, Hash)]
pub struct PermissionEntry {
    /// `resource_type:entity_id`.
    pub object: String,
    /// One of AllowAll, AllowList, AllowGet, AllowPost, AllowPut, AllowDelete.
    pub permission: String,
}

impl View for PermissionEntry {
    type V = (Seq<char>, Seq<char>);

    open spec fn view(&self) -> (Seq<char>, Seq<char>) {
        (self.object@, self.permission@)
    }
}

/// A request to create a group.
#[derive(Debug, Clone)]
pub struct CreateGroupRequest {
    pub name: String,
    pub display_name: Option<String>,
    pub description: Option<String>,
}

/// A request to change a group's roles and users.
#[derive(Debug, Clone)]
pub struct UpdateGroupRequest {
    pub add_roles: Option<HashSet<String>>,
    pub remove_roles: Option<HashSet<String>>,
    pub add_users: Option<HashSet<String>>,
    pub remove_users: Option<HashSet<String>>,
}

/// A group with its members and roles.
#[derive(Debug, Clone)]
pub struct GroupResponse {
    pub id: String,
    pub name: String,
    pub display_name: Option<String>,
    pub description: Option<String>,
    pub roles: Vec<String>,
    pub users: Vec<String>,
    pub created_at: i64,
    pub updated_at: i64,
}

/// A role offered for user assignment.
#[derive(Debug, Clone)]
pub struct UserRoleOption {
    pub label: String,
    pub value: String,
}

/// A role with its users.
#[derive(Debug, Clone)]
pub struct RoleResponse {
    pub name: String,
    pub label: String,
    pub users: Vec<String>,
    pub created_at: i64,
    pub updated_at: i64,
}

/// A permission as the check path uses it.
#[derive(Debug, Clone, Copy, PartialEq, Eq, Structural, Hash)]
pub enum Permission {
    AllowAll,
    AllowList,
    AllowGet,
    AllowPost,
    AllowPut,
    AllowDelete,
}

/// The permission that a lower-cased permission name stands for.
pub open spec fn permission_of_lower(s: Seq<char>) -> Option<Permission> {
    if s == "allowall"@ || s == "allow_all"@ {
        Some(Permission::AllowAll)
    } else if s == "allowlist"@ || s == "allow_list"@ {
        Some(Permission::AllowList)
    } else if s == "allowget"@ || s == "allow_get"@ {
        Some(Permission::AllowGet)
    } else if s == "allowpost"@ || s == "allow_post"@ {
        Some(Permission::AllowPost)
    } else if s == "allowput"@ || s == "allow_put"@ {
        Some(Permission::AllowPut)
    } else if s == "allowdelete"@ || s == "allow_delete"@ {
        Some(Permission::AllowDelete)
    } else {
        None
    }
}

/// The check relation of a permission.
pub open spec fn check_relation(p: Permission) -> Seq<char> {
    match p {
        Permission::AllowAll => "admin"@,
        Permission::AllowList => "can_list"@,
        Permission::AllowGet => "can_read"@,
        Permission::AllowPost => "can_create"@,
        Permission::AllowPut => "can_update"@,
        Permission::AllowDelete => "can_delete"@,
    }
}

/// The permission that an upper-cased HTTP method asks for.
pub open spec fn permission_of_method(m: Seq<char>, is_list: bool) -> Permission {
    if m == "GET"@ {
        if is_list {
            Permission::AllowList
        } else {
            Permission::AllowGet
        }
    } else if m == "POST"@ {
        Permission::AllowPost
    } else if m == "PUT"@ || m == "PATCH"@ {
        Permission::AllowPut
    } else if m == "DELETE"@ {
        Permission::AllowDelete
    } else {
        Permission::AllowGet
    }
}

/// The name of a permission.
pub open spec fn permission_name(p: Permission) -> Seq<char> {
    match p {
        Permission::AllowAll => "AllowAll"@,
        Permission::AllowList => "AllowList"@,
        Permission::AllowGet => "AllowGet"@,
        Permission::AllowPost => "AllowPost"@,
        Permission::AllowPut => "AllowPut"@,
        Permission::AllowDelete => "AllowDelete"@,
    }
}

impl Permission {
    /// Parses a permission name, ignoring case.
    pub fn from_str(s: &str) -> (r: Option<Permission>)
        ensures
            r == permission_of_lower(lower_of(s@)),
    {
        let lower = to_lower(s);
        Permission::from_lowercase(lower.as_str())
    }

    /// Parses an already lower-cased permission name.
    pub fn from_lowercase(s: &str) -> (r: Option<Permission>)
        ensures
            r == permission_of_lower(s@),
    {
        if str_eq(s, "allowall") || str_eq(s, "allow_all") {
            Some(Permission::AllowAll)
        } else if str_eq(s, "allowlist") || str_eq(s, "allow_list") {
            Some(Permission::AllowList)
        } else if str_eq(s, "allowget") || str_eq(s, "allow_get") {
            Some(Permission::AllowGet)
        } else if str_eq(s, "allowpost") || str_eq(s, "allow_post") {
            Some(Permission::AllowPost)
        } else if str_eq(s, "allowput") || str_eq(s, "allow_put") {
            Some(Permission::AllowPut)
        } else if str_eq(s, "allowdelete") || str_eq(s, "allow_delete") {
            Some(Permission::AllowDelete)
        } else {
            None
        }
    }

    /// The relation that a check for this permission evaluates.
    pub fn to_relation(&self) -> (r: &'static str)
        ensures
            r@ == check_relation(*self),
    {
        match self {
            Permission::AllowAll => "admin",
            Permission::AllowList => "can_list",
            Permission::AllowGet => "can_read",
            Permission::AllowPost => "can_create",
            Permission::AllowPut => "can_update",
            Permission::AllowDelete => "can_delete",
        }
    }

    /// The permission an HTTP method asks for; `is_list` marks a listing GET.
    pub fn from_method(method: &str, is_list: bool) -> (r: Permission)
        ensures
            r == permission_of_method(upper_of(method@), is_list),
    {
        let upper = to_upper(method);
        Permission::from_upper_method(upper.as_str(), is_list)
    }

    /// The permission an already upper-cased HTTP method asks for.
    pub fn from_upper_method(method: &str, is_list: bool) -> (r: Permission)
        ensures
            r == permission_of_method(method@, is_list),
    {
        if str_eq(method, "GET") {
            if is_list {
                Permission::AllowList
            } else {
                Permission::AllowGet
            }
        } else if str_eq(method, "POST") {
            Permission::AllowPost
        } else if str_eq(method, "PUT") || str_eq(method, "PATCH") {
            Permission::AllowPut
        } else if str_eq(method, "DELETE") {
            Permission::AllowDelete
        } else {
            Permission::AllowGet
        }
    }

    /// Whether holding this permission grants `other`: AllowAll grants all, any other only itself.
    pub fn implies(&self, other: &Permission) -> (r: bool)
        ensures
            r == (*self == Permission::AllowAll || *self == *other),
    {
        match self {
            Permission::AllowAll => true,
            _ => *self == *other,
        }
    }

    /// The permission's name.
    pub fn name(&self) -> (r: &'static str)
        ensures
            r@ == permission_name(*self),
    {
        match self {
            Permission::AllowAll => "AllowAll",
            Permission::AllowList => "AllowList",
            Permission::AllowGet => "AllowGet",
            Permission::AllowPost => "AllowPost",
            Permission::AllowPut => "AllowPut",
            Permission::AllowDelete => "AllowDelete",
        }
    }
}

} // verus!
