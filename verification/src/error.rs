//! The error taxonomy of the subsystem.

use vstd::prelude::*;

verus! {

/// Any possible errors.
///
/// Expected denials (bad credentials, policy says no, unknown session)
/// are plain results, not errors; only genuinely exceptional conditions
/// are carried here, so a caller layer can map them to transport-level
/// responses.
#[derive(Clone, Copy, Debug, PartialEq, Eq, Structural)]
pub enum MixiniError {
    /// A stored credential hash could not be parsed. Data corruption:
    /// operator-visible, never reported as a failed password check.
    CorruptCredential,
    /// A backing store could not be reached. Fatal for the current
    /// request; never silently mapped to a denial or to a guest subject.
    StoreUnavailable,
}

impl MixiniError {
    /// A short operator-facing description of the error.
    pub fn message(&self) -> (r: String)
        ensures
            r@ == self.message_spec(),
    {
        match self {
            MixiniError::CorruptCredential => String::from_str("stored credential is corrupt"),
            MixiniError::StoreUnavailable => String::from_str("backing store unavailable"),
        }
    }

    /// The description returned by [`MixiniError::message`].
    pub open spec fn message_spec(self) -> Seq<char> {
        match self {
            MixiniError::CorruptCredential => "stored credential is corrupt"@,
            MixiniError::StoreUnavailable => "backing store unavailable"@,
        }
    }
}

} // verus!
