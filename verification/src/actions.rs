//! Action values submitted to the policy engine.

use crate::fields::FieldName;
use crate::role::UserRole;
use vstd::prelude::*;

verus! {

/// An action a subject asks to perform on a resource, as the policy
/// engine evaluates it. Field-level questions carry the field they ask
/// about; a role assignment carries the role value being assigned.
#[derive(Clone, Copy, Debug, PartialEq, Eq, Structural)]
pub enum Action {
    /// Read the resource as a whole.
    Read,
    /// Delete the resource.
    Delete,
    /// Read one declared field of the resource.
    ReadField(FieldName),
    /// Change one declared field of the resource.
    UpdateField(FieldName),
    /// Set the resource's role to the carried value. Gated separately
    /// from general field updates.
    AssignRole(UserRole),
}

/// The "READ" action. Because there is no data pertinent to this action it
/// is a unit struct.
#[derive(Clone, Copy, Debug, PartialEq, Eq, Structural)]
pub struct Read;

impl Read {
    /// The policy-engine action this value stands for.
    pub fn as_action(&self) -> (r: Action)
        ensures
            r == Action::Read,
    {
        Action::Read
    }
}

/// The "DELETE" action. Because there is no data pertinent to this action
/// it is a unit struct.
#[derive(Clone, Copy, Debug, PartialEq, Eq, Structural)]
pub struct Delete;

impl Delete {
    /// The policy-engine action this value stands for.
    pub fn as_action(&self) -> (r: Action)
        ensures
            r == Action::Delete,
    {
        Action::Delete
    }
}

/// The action by which a user is updated. Can be understood as a sort of
/// changeset: each present field is a requested change, each absent field
/// is left alone.
#[derive(Debug)]
pub struct UpdateUser {
    pub name: Option<String>,
    pub email: Option<String>,
    pub role: Option<UserRole>,
}

impl Clone for UpdateUser {
    fn clone(&self) -> (r: Self)
        ensures
            r == *self,
    {
        UpdateUser { name: self.name.clone(), email: self.email.clone(), role: self.role }
    }
}

} // verus!
