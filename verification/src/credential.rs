//! The credential codec: password hashing, verification, and staleness
//! detection.
//!
//! Passwords are hashed with libreauth into self-describing PHC strings
//! (algorithm, parameters and salt embedded). A [`Credential`] pairs such
//! a hash with the scheme version it was produced at; verification reads
//! the hash alone, while the version tag drives the transparent
//! rehash-on-login upgrade path.

use crate::error::MixiniError;
use crate::token::is_alphanumeric_char;
use vstd::prelude::*;

verus! {

/// The hashing-scheme version this codec currently produces.
pub const PWD_SCHEME_VERSION: u32 = 1;

/// Whether libreauth's checker, rebuilt from the self-describing PHC
/// string `phc`, accepts the plaintext `plain`. The checker rehashes
/// `plain` with the salt and parameters embedded in `phc` and compares
/// digests, so the outcome is a function of the two strings alone.
pub uninterp spec fn phc_matches(phc: Seq<char>, plain: Seq<char>) -> bool;

/// Whether libreauth can parse `phc` as a PHC-formatted hash. A stored
/// hash for which this fails is corrupt.
pub uninterp spec fn phc_well_formed(phc: Seq<char>) -> bool;

/// Whether libreauth's parse-and-check path returns normally on `phc`,
/// for every candidate password. This is not true of every string:
/// libreauth validates each embedded parameter only against its own
/// range, while the argon2 implementation underneath rejects some
/// combinations those ranges admit (a memory cost below eight blocks per
/// lane) — and libreauth unwraps that rejection, so checking against such
/// a hash aborts instead of returning. Every hash this codec produces is
/// checkable, and verification is promised only for those; the abort on a
/// foreign, parsable-but-inconsistent hash cannot be turned into an error
/// result through this libreauth version.
pub uninterp spec fn phc_checkable(phc: Seq<char>) -> bool;

/// A password that has passed input validation: 8 to 128 characters,
/// ASCII letters and digits only. Validation itself happens before the
/// subsystem is entered; the codec never fails on such input.
pub open spec fn valid_password(p: Seq<char>) -> bool {
    &&& 8 <= p.len() <= 128
    &&& forall|i: int| 0 <= i < p.len() ==> is_alphanumeric_char(#[trigger] p[i])
}

/// Relies on libreauth's `HashBuilder` and `Hasher::hash`: hashing a
/// password of accepted length yields a PHC string that `from_phc` parses
/// back and whose checker — rebuilt with the default, internally
/// consistent argon2 parameters the builder embeds — returns normally and
/// accepts the same password.
#[verifier::external_body]
fn hash_phc(plain: &str, version: u32) -> (r: Option<String>)
    requires
        version < 0xffff_ffff,
    ensures
        valid_password(plain@) ==> r is Some,
        r matches Some(phc) ==> {
            &&& phc_well_formed(phc@)
            &&& phc_checkable(phc@)
            &&& phc_matches(phc@, plain@)
        },
{
    let hasher = match libreauth::pass::HashBuilder::new()
        .algorithm(libreauth::pass::Algorithm::Argon2)
        .version(version as usize)
        .finalize()
    {
        Ok(h) => h,
        Err(_) => return None,
    };
    match hasher.hash(plain) {
        Ok(phc) => Some(phc),
        Err(_) => None,
    }
}

/// Relies on libreauth's `HashBuilder::from_phc` and `Hasher::is_valid`:
/// parsing fails exactly on malformed PHC strings, and the rebuilt
/// checker's verdict depends only on the stored hash and the plaintext.
/// The `requires` excludes the strings on which the pair does not return:
/// a parsable hash whose embedded argon2 parameters the underlying
/// implementation rejects (memory cost below eight blocks per lane) makes
/// `is_valid` abort, because libreauth unwraps the rejection.
#[verifier::external_body]
fn check_phc(phc: &str, plain: &str) -> (r: Option<bool>)
    requires
        phc_checkable(phc@),
    ensures
        r is Some <==> phc_well_formed(phc@),
        r matches Some(b) ==> b == phc_matches(phc@, plain@),
{
    match libreauth::pass::HashBuilder::from_phc(phc) {
        Ok(checker) => Some(checker.is_valid(plain)),
        Err(_) => None,
    }
}

/// A stored password credential: a PHC-formatted hash and the scheme
/// version it was produced at. The hash is never a plaintext password;
/// the version tag always reflects the scheme that produced the hash.
#[derive(Debug)]
pub struct Credential {
    /// The password hash, in self-describing PHC form.
    pub hash: String,
    /// The hashing-scheme version that produced `hash`.
    pub scheme_version: u32,
}

impl Credential {
    /// A credential whose hash parses back as a PHC string.
    pub open spec fn wf(self) -> bool {
        phc_well_formed(self.hash@)
    }
}

impl Clone for Credential {
    fn clone(&self) -> (r: Self)
        ensures
            r == *self,
    {
        Credential { hash: self.hash.clone(), scheme_version: self.scheme_version }
    }
}

/// Hash a plaintext password at the given scheme version.
///
/// Never fails for a validated password; the produced credential verifies
/// against the same plaintext and carries the requested version.
pub fn hash_password(plain: &str, version: u32) -> (r: Result<Credential, MixiniError>)
    requires
        valid_password(plain@),
        version < 0xffff_ffff,
    ensures
        r matches Ok(c) ==> {
            &&& c.wf()
            &&& phc_checkable(c.hash@)
            &&& phc_matches(c.hash@, plain@)
            &&& c.scheme_version == version
        },
        r is Ok,
{
    match hash_phc(plain, version) {
        Some(phc) => Ok(Credential { hash: phc, scheme_version: version }),
        None => Err(MixiniError::CorruptCredential),
    }
}

/// Check a plaintext password against a stored credential.
///
/// Returns `Ok(true)` exactly when the plaintext reproduces the stored
/// hash under the algorithm the hash itself describes. A hash that cannot
/// be parsed is a corruption error, distinguished from a wrong password.
///
/// Verification is promised only for checkable hashes — every hash this
/// codec produces is one (see [`phc_checkable`]): on a foreign hash whose
/// embedded parameters are parsable but inconsistent, the backing
/// library aborts instead of returning, which no contract here can turn
/// into an error result.
pub fn verify_password(plain: &str, cred: &Credential) -> (r: Result<bool, MixiniError>)
    requires
        phc_checkable(cred.hash@),
    ensures
        r matches Ok(b) ==> b == phc_matches(cred.hash@, plain@),
        r is Ok <==> phc_well_formed(cred.hash@),
        r is Err ==> r == Result::<bool, MixiniError>::Err(MixiniError::CorruptCredential),
{
    match check_phc(cred.hash.as_str(), plain) {
        Some(b) => Ok(b),
        None => Err(MixiniError::CorruptCredential),
    }
}

/// Whether a credential is stale: produced by a different scheme version
/// than the one currently configured.
pub open spec fn is_stale(cred: Credential, current_version: u32) -> bool {
    cred.scheme_version != current_version
}

/// Whether a credential was produced by an older (or otherwise different)
/// scheme version than `current_version` and should be re-hashed after
/// the next successful verification.
pub fn needs_upgrade(cred: &Credential, current_version: u32) -> (r: bool)
    ensures
        r == is_stale(*cred, current_version),
{
    cred.scheme_version != current_version
}

/// A credential produced at version `v` — as [`hash_password`] ensures of
/// its result — is not stale at `v`, and is stale at every other version.
pub proof fn lemma_upgrade_iff_version_differs(c: Credential, v: u32)
    ensures
        c.scheme_version == v ==> !is_stale(c, v),
        c.scheme_version != v ==> is_stale(c, v),
{
}

/// For every validated password, verifying it against its own fresh hash
/// succeeds, and the fresh credential is not stale at the version that
/// produced it. The returned flag is proven true.
pub fn hash_then_verify(plain: &str, version: u32) -> (b: bool)
    requires
        valid_password(plain@),
        version < 0xffff_ffff,
    ensures
        b,
{
    let cred = match hash_password(plain, version) {
        Ok(c) => c,
        Err(_) => {
            return false;
        },
    };
    let fresh = !needs_upgrade(&cred, version);
    let verified = match verify_password(plain, &cred) {
        Ok(v) => v,
        Err(_) => {
            return false;
        },
    };
    fresh && verified
}

} // verus!
