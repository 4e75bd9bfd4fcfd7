//! The request's header map, and how a credential is written into it.
//!
//! The map is `http`'s `HeaderMap`, held behind trusted declarations.  Its
//! contents are named by `header_entries` (per lower-case header name, the
//! ordered values under it, each as text) and `header_key_count` (how many
//! distinct names it holds); the text a `HeaderValue` carries is named by
//! `header_value_text`.  The wrappers below state, over those names, what
//! `http`'s own source shows of the calls the logic makes.

use vstd::prelude::*;

use crate::credential::ChainError;
use crate::credential::header_text_allowed;
use crate::credential::invalid_credential_message;

verus! {

#[verifier::external_type_specification]
#[verifier::external_body]
pub struct ExHeaderValue(http::HeaderValue);

#[verifier::external_type_specification]
#[verifier::external_body]
#[verifier::reject_recursive_types(T)]
pub struct ExHeaderMap<T>(http::HeaderMap<T>);

/// The text a `HeaderValue` carries: `http::HeaderValue::from_str` stores the
/// string it was given, and the trusted items below speak of a value's
/// content only through this name.
pub uninterp spec fn header_value_text(v: http::HeaderValue) -> Seq<char>;

/// What a header map holds: for each header name (lower-case, as `http`
/// stores names), the ordered list of values under it, each as its text.
pub uninterp spec fn header_entries(m: http::HeaderMap) -> Map<Seq<char>, Seq<Seq<char>>>;

/// How many distinct header names a map holds, as `http::HeaderMap::keys_len`
/// counts them.
pub uninterp spec fn header_key_count(m: http::HeaderMap) -> nat;

/// The name the credential is stored under.
pub open spec fn authorization_key() -> Seq<char> {
    "authorization"@
}

/// The header entries after a credential is applied: the credential's text
/// becomes the one value under the authorization name, and every other entry
/// stays as it was.
pub open spec fn entries_with_credential(
    entries: Map<Seq<char>, Seq<Seq<char>>>,
    credential: Seq<char>,
) -> Map<Seq<char>, Seq<Seq<char>>> {
    entries.insert(authorization_key(), seq![credential])
}

/// A bound under which one more header can always be stored.  `HeaderMap`
/// refuses to grow past a fixed maximum size, and below that point an insert
/// cannot fail; by `http`'s own load-factor arithmetic a failing insert needs
/// several thousand distinct names already present, so this limit keeps a
/// comfortable margin.
pub const HEADER_KEY_LIMIT: usize = 4096;

/// Relies on `http::HeaderMap::keys_len`: it returns the number of distinct
/// header names the map holds.
#[verifier::external_body]
pub(crate) fn count_header_keys(m: &http::HeaderMap) -> (n: usize)
    ensures
        n == header_key_count(*m),
{
    m.keys_len()
}

/// Relies on `http::HeaderValue::from_str`: it accepts a string exactly when
/// every byte is the tab or lies in `32..=126` or `128..=255` (which over
/// characters is `header_text_allowed`), stores the accepted string, and
/// reports a rejected one with the fixed text of `InvalidHeaderValue`.
#[verifier::external_body]
fn build_header_value(text: &str) -> (r: Result<http::HeaderValue, String>)
    ensures
        r is Ok <==> header_text_allowed(text@),
        r matches Ok(v) ==> header_value_text(v) == text@,
        r matches Err(m) ==> m@ == invalid_credential_message(),
{
    match http::HeaderValue::from_str(text) {
        Ok(v) => Ok(v),
        Err(e) => Err(e.to_string()),
    }
}

/// Relies on `http::HeaderMap::insert` with `http::header::AUTHORIZATION`:
/// the new value replaces every value previously under the name, no other
/// entry changes, and at most one name is added.  The call fails (by panic)
/// only when the map would have to grow past its fixed maximum, which takes
/// several thousand distinct names; the bound required here rules that out.
#[verifier::external_body]
fn insert_authorization(m: &mut http::HeaderMap, v: http::HeaderValue)
    requires
        header_key_count(*old(m)) < HEADER_KEY_LIMIT,
    ensures
        header_entries(*final(m)) == entries_with_credential(
            header_entries(*old(m)),
            header_value_text(v),
        ),
        header_key_count(*final(m)) <= header_key_count(*old(m)) + 1,
{
    m.insert(http::header::AUTHORIZATION, v);
}

/// Formats the credential as a header value and stores it as the one
/// `Authorization` value of the map, whatever stood there before.  A
/// credential that cannot be a header value is rejected and the map is left
/// as it was.
pub fn apply_credential(m: &mut http::HeaderMap, credential: &str) -> (r: Result<(), ChainError>)
    requires
        header_key_count(*old(m)) < HEADER_KEY_LIMIT,
    ensures
        r is Ok <==> header_text_allowed(credential@),
        r is Ok ==> header_entries(*final(m)) == entries_with_credential(
            header_entries(*old(m)),
            credential@,
        ),
        r is Ok ==> header_key_count(*final(m)) <= header_key_count(*old(m)) + 1,
        r matches Err(e) ==> {
            &&& *final(m) == *old(m)
            &&& e matches ChainError::InvalidCredentialFormat { message }
            &&& message@ == invalid_credential_message()
        },
{
    match build_header_value(credential) {
        Ok(value) => {
            insert_authorization(m, value);
            Ok(())
        },
        Err(message) => Err(ChainError::InvalidCredentialFormat { message }),
    }
}

} // verus!
