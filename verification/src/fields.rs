//! The declared fields of a user profile and sets of them.
//!
//! An access decision for a read or an update is computed independently
//! per field; the result is a [`FieldSet`], the set of field names the
//! subject may see or change.

use vstd::prelude::*;

verus! {

/// A declared field of a user profile, as exposed to clients.
#[derive(Clone, Copy, Debug, PartialEq, Eq, Structural)]
pub enum FieldName {
    Id,
    CreatedAt,
    UpdatedAt,
    Name,
    Email,
    Role,
}

/// A set of profile field names, one membership flag per declared field.
#[derive(Clone, Copy, Debug, PartialEq, Eq, Structural)]
pub struct FieldSet {
    pub id: bool,
    pub created_at: bool,
    pub updated_at: bool,
    pub name: bool,
    pub email: bool,
    pub role: bool,
}

impl FieldSet {
    /// Whether `f` is in the set.
    pub open spec fn contains(self, f: FieldName) -> bool {
        match f {
            FieldName::Id => self.id,
            FieldName::CreatedAt => self.created_at,
            FieldName::UpdatedAt => self.updated_at,
            FieldName::Name => self.name,
            FieldName::Email => self.email,
            FieldName::Role => self.role,
        }
    }

    /// Membership test for `f`.
    pub fn member(&self, f: FieldName) -> (r: bool)
        ensures
            r == self.contains(f),
    {
        match f {
            FieldName::Id => self.id,
            FieldName::CreatedAt => self.created_at,
            FieldName::UpdatedAt => self.updated_at,
            FieldName::Name => self.name,
            FieldName::Email => self.email,
            FieldName::Role => self.role,
        }
    }

    /// The set of all declared field names of a user profile.
    pub fn all() -> (r: FieldSet)
        ensures
            r == FieldSet::all_spec(),
    {
        FieldSet { id: true, created_at: true, updated_at: true, name: true, email: true, role: true }
    }

    /// The full set: every declared field is a member.
    pub open spec fn all_spec() -> FieldSet {
        FieldSet { id: true, created_at: true, updated_at: true, name: true, email: true, role: true }
    }

    /// The empty set of field names.
    pub fn empty() -> (r: FieldSet)
        ensures
            r == FieldSet::empty_spec(),
    {
        FieldSet { id: false, created_at: false, updated_at: false, name: false, email: false, role: false }
    }

    /// The empty set: no field is a member.
    pub open spec fn empty_spec() -> FieldSet {
        FieldSet {
            id: false,
            created_at: false,
            updated_at: false,
            name: false,
            email: false,
            role: false,
        }
    }
}

} // verus!
