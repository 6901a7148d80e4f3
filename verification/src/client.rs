use vstd::prelude::*;
use vstd::string::StringExecFns;

verus! {

/// The provider's production endpoint, used by [`Client::production`].
pub const BASE_URL: &'static str = "https://api.sendinblue.com/v3";

/// Configuration for one account: the server to talk to and the API key
/// that authenticates every request. Immutable once constructed.
#[derive(Debug, Clone)]
pub struct Client {
    pub server_url: String,
    pub api_key: String,
}

impl Client {
    /// A client against an explicitly chosen server.
    pub fn new(server_url: String, api_key: String) -> (client: Self)
        ensures
            client.server_url == server_url,
            client.api_key == api_key,
    {
        Self { server_url, api_key }
    }

    /// A client against the provider's production endpoint.
    pub fn production(api_key: String) -> (client: Self)
        ensures
            client.server_url@ == BASE_URL@,
            client.api_key == api_key,
    {
        Self { server_url: BASE_URL.to_owned(), api_key }
    }

    /// The URL of the transactional-email endpoint: the configured server
    /// followed by the fixed `/smtp/email` path.
    pub fn smtp_email_url(&self) -> (url: String)
        ensures
            url@ == self.server_url@ + "/smtp/email"@,
    {
        self.server_url.clone().concat("/smtp/email")
    }
}

} // verus!
