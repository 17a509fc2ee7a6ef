//! Subjects, user records, and redacted profile views.

use crate::credential::Credential;
use crate::role::UserRole;
use vstd::prelude::*;

verus! {

/// The snapshot of a user that a session carries: what the policy engine
/// needs to evaluate rules for the subject on later requests.
#[derive(Debug)]
pub struct UserInfo {
    pub id: u64,
    pub name: String,
    pub role: UserRole,
    pub verified: bool,
}

impl Clone for UserInfo {
    fn clone(&self) -> (r: Self)
        ensures
            r == *self,
    {
        UserInfo {
            id: self.id,
            name: self.name.clone(),
            role: self.role,
            verified: self.verified,
        }
    }
}

/// The authorization of a caller making a request: a known user resolved
/// from a live session, or the guest sentinel. Guests are a fixed subject
/// value, not an absence, so rules apply to them uniformly.
#[derive(Debug)]
pub enum Subject {
    KnownUser(UserInfo),
    Guest,
}

impl Clone for Subject {
    fn clone(&self) -> (r: Self)
        ensures
            r == *self,
    {
        match self {
            Subject::KnownUser(u) => Subject::KnownUser(u.clone()),
            Subject::Guest => Subject::Guest,
        }
    }
}

/// A full user record, as the relational store holds it.
#[derive(Debug)]
pub struct UserRecord {
    pub id: u64,
    /// Creation time, in seconds.
    pub created_at: u64,
    /// Last update time, in seconds.
    pub updated_at: u64,
    pub name: String,
    pub email: String,
    pub role: UserRole,
    /// The stored password credential. Never serialized out to a client.
    pub password: Credential,
    pub verified: bool,
}

impl UserRecord {
    /// The session snapshot taken of this record.
    pub fn snapshot(&self) -> (r: UserInfo)
        ensures
            r == self.snapshot_spec(),
    {
        UserInfo {
            id: self.id,
            name: self.name.clone(),
            role: self.role,
            verified: self.verified,
        }
    }

    /// The snapshot [`UserRecord::snapshot`] returns.
    pub open spec fn snapshot_spec(self) -> UserInfo {
        UserInfo { id: self.id, name: self.name, role: self.role, verified: self.verified }
    }
}

impl Clone for UserRecord {
    fn clone(&self) -> (r: Self)
        ensures
            r == *self,
    {
        UserRecord {
            id: self.id,
            created_at: self.created_at,
            updated_at: self.updated_at,
            name: self.name.clone(),
            email: self.email.clone(),
            role: self.role,
            password: self.password.clone(),
            verified: self.verified,
        }
    }
}

/// A redacted view of a user record: each declared field is present
/// exactly when the field-level access decision granted it; absent fields
/// are omitted entirely, not emitted as empty values.
#[derive(Debug, PartialEq, Eq)]
pub struct UserView {
    pub id: Option<u64>,
    pub created_at: Option<u64>,
    pub updated_at: Option<u64>,
    pub name: Option<String>,
    pub email: Option<String>,
    pub role: Option<UserRole>,
}

} // verus!
