//! User roles.

use vstd::prelude::*;

verus! {

/// The role attached to a user account. Policy rules match on it.
#[derive(Clone, Copy, Debug, PartialEq, Eq, Structural)]
pub enum UserRole {
    Admin,
    Contributor,
    Creator,
    Maintainer,
    Member,
    Moderator,
}

impl UserRole {
    /// The lower-case name of the role, as it is rendered for storage
    /// and display.
    pub fn name(&self) -> (r: String)
        ensures
            r@ == self.name_spec(),
    {
        match self {
            UserRole::Admin => String::from_str("admin"),
            UserRole::Contributor => String::from_str("contributor"),
            UserRole::Creator => String::from_str("creator"),
            UserRole::Maintainer => String::from_str("maintainer"),
            UserRole::Member => String::from_str("member"),
            UserRole::Moderator => String::from_str("moderator"),
        }
    }

    /// The lower-case name of the role.
    pub open spec fn name_spec(self) -> Seq<char> {
        match self {
            UserRole::Admin => "admin"@,
            UserRole::Contributor => "contributor"@,
            UserRole::Creator => "creator"@,
            UserRole::Maintainer => "maintainer"@,
            UserRole::Member => "member"@,
            UserRole::Moderator => "moderator"@,
        }
    }
}

} // verus!
