//! Authorization-header interception for an HTTP middleware chain.
//!
//! The library holds the logic of a single interception step: take the
//! outcome of a credential fetch, turn the credential into an
//! `Authorization` header value, write it into the request's header map
//! (overwriting any prior value), and decide whether the request may be
//! forwarded to the rest of the chain.  Fetching the credential and driving
//! the chain are asynchronous work that a thin adapter performs; every
//! decision it acts on is made and proved here.

use vstd::prelude::*;

pub mod credential;
pub mod headers;
pub mod interceptor;

verus! {

pub use credential::ChainError;
pub use credential::header_char_allowed;
pub use credential::header_text_allowed;
pub use credential::invalid_credential_message;
pub use headers::HEADER_KEY_LIMIT;
pub use headers::authorization_key;
pub use headers::entries_with_credential;
pub use headers::header_entries;
pub use headers::header_key_count;
pub use headers::header_value_text;
pub use headers::apply_credential;
pub use interceptor::intercept;
pub use interceptor::intercept_exact;
pub use interceptor::interception_outcome;
pub use interceptor::pass_through;

} // verus!
