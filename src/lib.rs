//! Authorization core of a multi-tenant observability platform: a relationship-based
//! access-control layer over a tuple store.
//!
//! The resource catalog (`resources`, `mapping`) and the identifier codec (`codec`) are
//! pure lookups and string builders. `checker` decides permission requests, `roles` and
//! `groups` plan and interpret the tuple reads and writes of administration, `tuples`
//! builds the org lifecycle tuples, and `store` and `bootstrap` hold the gateway's own
//! logic. `laws` proves properties that span several of these over a model of the store
//! as a set of tuples.
pub mod text;
pub mod types;
pub mod codec;
pub mod resources;
pub mod mapping;
pub mod names;
pub mod error;
pub mod tuples;
pub mod config;
pub mod store;
pub mod roles;
pub mod id;
pub mod groups;
pub mod checker;
pub mod auth;
pub mod identity;
pub mod schema;
pub mod bootstrap;
pub mod laws;
