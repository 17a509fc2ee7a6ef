//! Authentication and policy-based authorization subsystem for a
//! user-account backend.
//!
//! The crate covers four verified components and the flows that wire them
//! together:
//!
//! - a credential codec that hashes and verifies passwords and detects
//!   stale hashing-scheme versions ([`credential`]);
//! - a session store modelled as a key-value store with per-entry expiry,
//!   together with the opaque-token session lifecycle built on it
//!   ([`store`], [`session`], [`token`]);
//! - a rule-based policy engine that makes allow/deny decisions and
//!   computes per-field visibility sets ([`policy`]);
//! - a field projector that redacts a user record down to the fields a
//!   policy decision grants ([`project`]).
//!
//! The request-level flows (login with transparent rehash, authenticate,
//! logout, profile read/update/delete, email verification) live in
//! [`flow`].

pub mod actions;
pub mod credential;
pub mod error;
pub mod fields;
pub mod flow;
pub mod policy;
pub mod project;
pub mod role;
pub mod session;
pub mod store;
pub mod token;
pub mod user;
