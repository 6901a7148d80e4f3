//! Client library for a transactional-email HTTP API.
//!
//! The library builds the JSON request body for a templated email send:
//! a sender, recipients, a reply-to address, a template id, a subject,
//! and a free-form parameter map of template substitution variables.
//! The parameter map is modelled as a [`json::JsonValue`] object and all
//! builder operations, including the null-skipping object merge, carry
//! contracts over a mathematical `Map` view of that object.
//!
//! The HTTP transport itself (serialization of the finished body and the
//! POST to the provider) lives outside this crate; the crate hands the
//! finished [`transactional::TransactionalBody`] to the caller by value.

use vstd::prelude::*;

mod client;
mod json;
mod mailer;
mod transactional;

pub use client::Client;
pub use json::JsonValue;
pub use mailer::Mailer;
pub use transactional::TransactionalBody;
pub use transactional::TransactionalBodyBuilder;
pub use transactional::TransactionalResp;

verus! {

/// The provider-facing name of the client configuration.
pub type Sendinblue = Client;

} // verus!
