//! The field projector: redacting a user record down to a set of visible
//! fields.

use crate::fields::{FieldName, FieldSet};
use crate::user::{UserRecord, UserView};
use vstd::prelude::*;

verus! {

/// The view [`project`] produces: each declared field of `r` is included
/// exactly when its name is in `visible`.
pub open spec fn project_spec(r: UserRecord, visible: FieldSet) -> UserView {
    UserView {
        id: if visible.contains(FieldName::Id) {
            Some(r.id)
        } else {
            None
        },
        created_at: if visible.contains(FieldName::CreatedAt) {
            Some(r.created_at)
        } else {
            None
        },
        updated_at: if visible.contains(FieldName::UpdatedAt) {
            Some(r.updated_at)
        } else {
            None
        },
        name: if visible.contains(FieldName::Name) {
            Some(r.name)
        } else {
            None
        },
        email: if visible.contains(FieldName::Email) {
            Some(r.email)
        } else {
            None
        },
        role: if visible.contains(FieldName::Role) {
            Some(r.role)
        } else {
            None
        },
    }
}

/// The view of `r` with every declared field present.
pub open spec fn full_view(r: UserRecord) -> UserView {
    UserView {
        id: Some(r.id),
        created_at: Some(r.created_at),
        updated_at: Some(r.updated_at),
        name: Some(r.name),
        email: Some(r.email),
        role: Some(r.role),
    }
}

/// The view with no field present at all.
pub open spec fn empty_view() -> UserView {
    UserView { id: None, created_at: None, updated_at: None, name: None, email: None, role: None }
}

/// Produce the redacted view of `r`: a field survives exactly when its
/// name is in `visible`; every other field is absent from the view, not
/// emitted as an empty value. Every declared field goes through the same
/// name-membership test, with no special-casing by field type.
pub fn project(r: &UserRecord, visible: &FieldSet) -> (v: UserView)
    ensures
        v == project_spec(*r, *visible),
{
    UserView {
        id: if visible.member(FieldName::Id) {
            Some(r.id)
        } else {
            None
        },
        created_at: if visible.member(FieldName::CreatedAt) {
            Some(r.created_at)
        } else {
            None
        },
        updated_at: if visible.member(FieldName::UpdatedAt) {
            Some(r.updated_at)
        } else {
            None
        },
        name: if visible.member(FieldName::Name) {
            Some(r.name.clone())
        } else {
            None
        },
        email: if visible.member(FieldName::Email) {
            Some(r.email.clone())
        } else {
            None
        },
        role: if visible.member(FieldName::Role) {
            Some(r.role)
        } else {
            None
        },
    }
}

/// Projection round-trip: projecting through the set of all declared
/// field names reproduces the record in full, and projecting through the
/// empty set yields a view with no fields.
pub proof fn lemma_project_round_trip(r: UserRecord)
    ensures
        project_spec(r, FieldSet::all_spec()) == full_view(r),
        project_spec(r, FieldSet::empty_spec()) == empty_view(),
{
}

} // verus!
