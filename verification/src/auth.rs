//! Credentials for talking to the service: a client id, and an access
//! token that may need refreshing before use.
use vstd::prelude::*;

verus! {

/// An auth provider that can provide a client id.
pub trait ClientIdProvider {
    /// Get the client id for this auth provider.
    fn client_id(&self) -> &str;
}

/// A simple client id provider that wraps the client id string.
#[derive(Debug, Clone)]
pub struct ClientId(pub String);

impl ClientId {
    /// Wrap the given string as a client id.
    pub fn new(client_id: String) -> (r: Self)
        ensures
            r.0@ == client_id@,
    {
        ClientId(client_id)
    }
}

impl ClientIdProvider for ClientId {
    fn client_id(&self) -> (r: &str)
        ensures
            r@ == self.0@,
    {
        self.0.as_str()
    }
}

/// An access token, or the fact that it needs refreshing first.
#[derive(Debug, Clone)]
pub enum AccessToken {
    /// A token ready for use.
    Token(String),
    /// The token expired or otherwise needs refreshing.
    NeedsRefresh,
}

impl From<String> for AccessToken {
    fn from(token: String) -> (r: Self) {
        AccessToken::Token(token)
    }
}

impl vstd::std_specs::convert::FromSpecImpl<String> for AccessToken {
    open spec fn obeys_from_spec() -> bool {
        true
    }

    open spec fn from_spec(token: String) -> Self {
        AccessToken::Token(token)
    }
}

/// An auth provider that can provide an access token.
///
/// When the token is expired, `access_token` returns
/// [`AccessToken::NeedsRefresh`] to say that `refresh_token` should be
/// called; how a refresh is carried out — usually a request to the
/// service — is the implementor's business.
pub trait AccessTokenProvider: ClientIdProvider {
    /// Error type used for refreshing errors.
    type Error;

    /// Get the access token for this auth provider.
    fn access_token(&self) -> AccessToken;

    /// Refresh the token.
    fn refresh_token(&self) -> Result<String, Self::Error>;
}

} // verus!
