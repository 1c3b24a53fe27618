//! The errors of the authorization layer.
use crate::text::{cat, owned};
use vstd::prelude::*;

verus! {

/// What can go wrong in the authorization layer.
#[derive(Debug)]
pub enum Error {
    /// Used before the store was bootstrapped.
    NotInitialized(String),
    /// The store answered with a non-success status; the text holds status and body.
    OpenFGA(String),
    /// The store could not be reached.
    Http(String),
    StoreNotFound,
    ModelNotFound,
    RoleNotFound(String),
    GroupNotFound(String),
    UserNotFound(String),
    PermissionDenied(String),
    InvalidPermission(String),
    InvalidResourceType(String),
    DuplicateEntry(String),
    Validation(String),
    Serialization(String),
    Config(String),
    Internal(String),
}

/// The HTTP status that goes with an error.
pub open spec fn status_of(e: Error) -> u16 {
    match e {
        Error::NotInitialized(_) => 503,
        Error::RoleNotFound(_) | Error::GroupNotFound(_) | Error::UserNotFound(_) => 404,
        Error::PermissionDenied(_) => 403,
        Error::DuplicateEntry(_) => 409,
        Error::InvalidPermission(_) | Error::InvalidResourceType(_) | Error::Validation(_) => 400,
        _ => 500,
    }
}

/// The text of an error.
pub open spec fn message_of(e: Error) -> Seq<char> {
    match e {
        Error::NotInitialized(m) => "Not initialized: "@ + m@,
        Error::OpenFGA(m) => "OpenFGA error: "@ + m@,
        Error::Http(m) => "HTTP error: "@ + m@,
        Error::StoreNotFound => "OpenFGA store not found"@,
        Error::ModelNotFound => "OpenFGA authorization model not found"@,
        Error::RoleNotFound(m) => "Role not found: "@ + m@,
        Error::GroupNotFound(m) => "Group not found: "@ + m@,
        Error::UserNotFound(m) => "User not found: "@ + m@,
        Error::PermissionDenied(m) => "Permission denied: "@ + m@,
        Error::InvalidPermission(m) => "Invalid permission: "@ + m@,
        Error::InvalidResourceType(m) => "Invalid resource type: "@ + m@,
        Error::DuplicateEntry(m) => "Duplicate entry: "@ + m@,
        Error::Validation(m) => "Validation error: "@ + m@,
        Error::Serialization(m) => "Serialization error: "@ + m@,
        Error::Config(m) => "Configuration error: "@ + m@,
        Error::Internal(m) => "Internal error: "@ + m@,
    }
}

impl Error {
    /// The HTTP status for this error: 503 before bootstrap, 404 for a missing role, group
    /// or user, 403 when denied, 409 for a duplicate, 400 for malformed input, else 500.
    pub fn status_code(&self) -> (r: u16)
        ensures
            r == status_of(*self),
    {
        match self {
            Error::NotInitialized(_) => 503,
            Error::RoleNotFound(_) | Error::GroupNotFound(_) | Error::UserNotFound(_) => 404,
            Error::PermissionDenied(_) => 403,
            Error::DuplicateEntry(_) => 409,
            Error::InvalidPermission(_) | Error::InvalidResourceType(_) | Error::Validation(_) => 400,
            _ => 500,
        }
    }

    /// The error's text.
    pub fn message(&self) -> (r: String)
        ensures
            r@ == message_of(*self),
    {
        match self {
            Error::NotInitialized(m) => cat("Not initialized: ", m.as_str()),
            Error::OpenFGA(m) => cat("OpenFGA error: ", m.as_str()),
            Error::Http(m) => cat("HTTP error: ", m.as_str()),
            Error::StoreNotFound => owned("OpenFGA store not found"),
            Error::ModelNotFound => owned("OpenFGA authorization model not found"),
            Error::RoleNotFound(m) => cat("Role not found: ", m.as_str()),
            Error::GroupNotFound(m) => cat("Group not found: ", m.as_str()),
            Error::UserNotFound(m) => cat("User not found: ", m.as_str()),
            Error::PermissionDenied(m) => cat("Permission denied: ", m.as_str()),
            Error::InvalidPermission(m) => cat("Invalid permission: ", m.as_str()),
            Error::InvalidResourceType(m) => cat("Invalid resource type: ", m.as_str()),
            Error::DuplicateEntry(m) => cat("Duplicate entry: ", m.as_str()),
            Error::Validation(m) => cat("Validation error: ", m.as_str()),
            Error::Serialization(m) => cat("Serialization error: ", m.as_str()),
            Error::Config(m) => cat("Configuration error: ", m.as_str()),
            Error::Internal(m) => cat("Internal error: ", m.as_str()),
        }
    }
}

} // verus!
