//! The interception step itself, and the laws it obeys.

use vstd::prelude::*;

use crate::credential::ChainError;
use crate::credential::header_text_allowed;
use crate::credential::invalid_credential_message;
use crate::headers::HEADER_KEY_LIMIT;
use crate::headers::apply_credential;
use crate::headers::authorization_key;
use crate::headers::count_header_keys;
use crate::headers::entries_with_credential;
use crate::headers::header_entries;
use crate::headers::header_key_count;

verus! {

/// Everything an interception step does, as a relation between the headers
/// before the step, the headers after it, the outcome of this call's
/// credential fetch, and the step's result.
///
/// A failed fetch ends the step in a fetch error carrying the source's own
/// message; a credential no header value can carry ends it in a format error;
/// either way the headers are untouched and the request must not be
/// forwarded.  Otherwise the credential becomes the one `Authorization` value
/// of the request, whatever stood there before, and `Ok` — the only success —
/// says the request may go on into the chain.
pub open spec fn interception_outcome(
    before: http::HeaderMap,
    after: http::HeaderMap,
    fetched: Result<String, String>,
    r: Result<(), ChainError>,
) -> bool {
    &&& (r is Ok <==> (fetched matches Ok(t) && header_text_allowed(t@)))
    &&& (fetched matches Err(m) ==> {
        &&& r == Err::<(), ChainError>(ChainError::CredentialFetchFailed { message: m })
        &&& after == before
    })
    &&& (fetched matches Ok(t) ==> (!header_text_allowed(t@) ==> {
        &&& r matches Err(e)
        &&& e matches ChainError::InvalidCredentialFormat { message }
        &&& message@ == invalid_credential_message()
        &&& after == before
    }))
    &&& (fetched matches Ok(t) ==> (header_text_allowed(t@) ==> {
        &&& header_entries(after) == entries_with_credential(header_entries(before), t@)
        &&& header_key_count(after) <= header_key_count(before) + 1
    }))
}

/// One interception step, given the outcome of this call's credential fetch.
///
/// The step keeps no state: what it does is a function of this call's headers
/// and fetch outcome alone, as `interception_outcome` states it.  The bound
/// required of the headers keeps room to store one more name; `intercept`
/// tests it at run time instead.
pub fn intercept_exact(
    headers: &mut http::HeaderMap,
    fetched: Result<String, String>,
) -> (r: Result<(), ChainError>)
    requires
        header_key_count(*old(headers)) < HEADER_KEY_LIMIT,
    ensures
        interception_outcome(*old(headers), *final(headers), fetched, r),
{
    match fetched {
        Ok(token) => apply_credential(headers, token.as_str()),
        Err(message) => Err(ChainError::CredentialFetchFailed { message }),
    }
}

/// One interception step, with the room `intercept_exact` asks of the header
/// map tested at run time.
///
/// `Some` carries the step's result; `None` says the map already holds
/// `HEADER_KEY_LIMIT` or more distinct names — a request no sane chain
/// produces — and the headers were left untouched.
pub fn intercept(
    headers: &mut http::HeaderMap,
    fetched: Result<String, String>,
) -> (r: Option<Result<(), ChainError>>)
    ensures
        r matches Some(step) ==> interception_outcome(
            *old(headers),
            *final(headers),
            fetched,
            step,
        ),
        r is None <==> header_key_count(*old(headers)) >= HEADER_KEY_LIMIT,
        r is None ==> *final(headers) == *old(headers),
{
    if count_header_keys(headers) < HEADER_KEY_LIMIT {
        Some(intercept_exact(headers, fetched))
    } else {
        None
    }
}

/// The outcome of the rest of the chain, delivered to the caller unchanged:
/// the interceptor wraps nothing around what comes back downstream.
pub fn pass_through<R>(outcome: R) -> (r: R)
    ensures
        r == outcome,
{
    outcome
}

/// Header overwrite: whatever a request's headers held before, after a
/// credential is applied the authorization name holds exactly the applied
/// credential, as its one value.
pub proof fn lemma_header_overwrite(entries: Map<Seq<char>, Seq<Seq<char>>>, credential: Seq<char>)
    ensures
        entries_with_credential(entries, credential).contains_key(authorization_key()),
        entries_with_credential(entries, credential)[authorization_key()] == seq![credential],
        entries_with_credential(entries, credential)[authorization_key()].len() == 1,
        forall|k: Seq<char>| k != authorization_key() ==> (
            entries_with_credential(entries, credential).contains_key(k)
                <==> entries.contains_key(k)
        ),
        forall|k: Seq<char>| k != authorization_key() && entries.contains_key(k) ==> (
            entries_with_credential(entries, credential)[k] == entries[k]
        ),
{
}

/// Per-call freshness: two interceptions reflect, each, the credential
/// fetched for it.  Applying first one credential and then, to a second
/// request, another, leaves the first request carrying the first credential
/// and the second the second: nothing of an earlier call is kept.
pub proof fn lemma_fresh_credential_per_call(
    first: Map<Seq<char>, Seq<Seq<char>>>,
    second: Map<Seq<char>, Seq<Seq<char>>>,
    early: Seq<char>,
    late: Seq<char>,
)
    ensures
        entries_with_credential(first, early)[authorization_key()] == seq![early],
        entries_with_credential(second, late)[authorization_key()] == seq![late],
{
}

/// Concurrent independence: however many requests run at once, each ends with
/// the credential of its own fetch, a function of its own starting headers
/// and its own fetched value alone, untouched by what any other request
/// fetched or held.
pub proof fn lemma_concurrent_independence(
    starts: Seq<Map<Seq<char>, Seq<Seq<char>>>>,
    credentials: Seq<Seq<char>>,
)
    requires
        starts.len() == credentials.len(),
    ensures
        forall|i: int| 0 <= i < starts.len() ==> (
            #[trigger] entries_with_credential(starts[i], credentials[i])[authorization_key()]
                == seq![credentials[i]]
        ),
{
}

} // verus!
