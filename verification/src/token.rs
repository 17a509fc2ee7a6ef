//! Opaque-token generation for store keys.
//!
//! Tokens are random alphanumeric strings of [`KEY_LENGTH`] characters
//! (62 symbols per position), sized to make guessing infeasible. A token
//! is stored under a namespacing prefix; the unprefixed form is what a
//! caller carries.

use rand::RngExt;
use vstd::prelude::*;

verus! {

/// The length, in characters, of a generated key.
pub const KEY_LENGTH: usize = 32;

/// An ASCII letter or digit, as a byte.
pub open spec fn is_alphanumeric_byte(b: u8) -> bool {
    (48 <= b <= 57) || (65 <= b <= 90) || (97 <= b <= 122)
}

/// An ASCII letter or digit.
pub open spec fn is_alphanumeric_char(c: char) -> bool {
    ('0' <= c <= '9') || ('A' <= c <= 'Z') || ('a' <= c <= 'z')
}

/// An opaque token as handed to callers: exactly [`KEY_LENGTH`]
/// alphanumeric characters.
pub open spec fn is_token(s: Seq<char>) -> bool {
    &&& s.len() == KEY_LENGTH
    &&& forall|i: int| 0 <= i < s.len() ==> is_alphanumeric_char(#[trigger] s[i])
}

/// Relies on rand's `Alphanumeric` distribution: every sample is drawn
/// from the 62 ASCII letters and digits. Nothing else is assumed of the
/// outcome.
#[verifier::external_body]
fn random_alphanumeric_byte() -> (b: u8)
    ensures
        is_alphanumeric_byte(b),
{
    rand::rng().sample(rand::distr::Alphanumeric)
}

/// Relies on std's `String::from_utf8`: a buffer of ASCII bytes decodes
/// to the string whose characters have the same code points.
#[verifier::external_body]
fn string_from_ascii(bytes: Vec<u8>) -> (r: String)
    requires
        forall|i: int| 0 <= i < bytes@.len() ==> bytes@[i] < 128,
    ensures
        r@ == bytes@.map_values(|b: u8| b as char),
{
    match String::from_utf8(bytes) {
        Ok(s) => s,
        Err(_) => String::new(),
    }
}

/// Pair of keys intended for use in the key-value store and in cookies.
#[derive(Debug)]
pub struct RKeys {
    /// Key without prefix.
    pub base_key: String,
    /// Key with prefix.
    pub prefixed_key: String,
}

impl RKeys {
    /// Generate a random alphanumeric key `KEY_LENGTH` long and return
    /// its `(raw, prefixed)` variations.
    pub fn generate(prefix: &'static str) -> (r: RKeys)
        ensures
            is_token(r.base_key@),
            r.prefixed_key@ == prefix@ + r.base_key@,
    {
        let mut bytes: Vec<u8> = Vec::new();
        let mut i: usize = 0;
        while i < KEY_LENGTH
            invariant
                i == bytes@.len(),
                i <= KEY_LENGTH,
                forall|j: int| 0 <= j < i ==> is_alphanumeric_byte(#[trigger] bytes@[j]),
            decreases KEY_LENGTH - i,
        {
            bytes.push(random_alphanumeric_byte());
            i += 1;
        }
        let base_key = string_from_ascii(bytes);
        let prefixed_key = String::from_str(prefix).concat(base_key.as_str());
        proof {
            assert forall|k: int| 0 <= k < base_key@.len() implies is_alphanumeric_char(
                #[trigger] base_key@[k],
            ) by {
                assert(base_key@[k] == bytes@[k] as char);
                assert(is_alphanumeric_byte(bytes@[k]));
            }
        }
        RKeys { base_key, prefixed_key }
    }
}

} // verus!
