//! The client's configuration and the OAuth token-acquisition glue: request
//! bodies are built and response bodies parsed here; the HTTP transport
//! around them is the caller's.

use vstd::prelude::*;
use vstd::string::StringExecFns;

use crate::error::Error;

verus! {

/// The grant type a token request asks for.
#[derive(Debug, Clone, Copy, PartialEq, Eq, Structural)]
pub enum GrantType {
    ClientCredentials,
    Password,
}

pub open spec fn grant_type_name(g: GrantType) -> Seq<char> {
    match g {
        GrantType::ClientCredentials => "client_credentials"@,
        GrantType::Password => "password"@,
    }
}

impl GrantType {
    pub fn as_str(&self) -> (r: &'static str)
        ensures
            r@ == grant_type_name(*self),
    {
        match self {
            GrantType::ClientCredentials => "client_credentials",
            GrantType::Password => "password",
        }
    }
}

/// The response a successful token request carries.
#[derive(Debug)]
pub struct AccessTokenResponse {
    pub access_token: String,
}

/// What the token-response parser yields on a body: the `access_token` field
/// of the JSON object, or `None` when the body has no such shape.
pub uninterp spec fn parsed_access_token(body: Seq<char>) -> Option<Seq<char>>;

/// Relies on serde_json::from_str and Value::as_str: whether the body is a
/// JSON object whose `access_token` field is a string, and that string,
/// depend on the body text alone.
#[verifier::external_body]
fn parse_access_token_raw(body: &str) -> (r: Option<String>)
    ensures
        match r {
            Some(t) => parsed_access_token(body@) == Some(t@),
            None => parsed_access_token(body@) is None,
        },
{
    let value: serde_json::Value = match serde_json::from_str(body) {
        Ok(v) => v,
        Err(_) => return None,
    };
    match value.get("access_token").and_then(|t| t.as_str()) {
        Some(s) => Some(s.to_string()),
        None => None,
    }
}

/// Deserializes a token-endpoint response body, or reports it malformed.
pub fn parse_access_token_response(body: &str) -> (r: Result<AccessTokenResponse, Error>)
    ensures
        match r {
            Ok(resp) => parsed_access_token(body@) == Some(resp.access_token@),
            Err(e) => e == Error::MalformedResponse && parsed_access_token(body@) is None,
        },
{
    match parse_access_token_raw(body) {
        Some(access_token) => Ok(AccessTokenResponse { access_token }),
        None => Err(Error::MalformedResponse),
    }
}

/// The client's configuration and authentication state. The HTTP transport
/// that carries its requests lives with the caller.
#[derive(Debug)]
pub struct Auth0Client {
    pub client_id: String,
    pub client_secret: String,
    pub domain: String,
    pub audience: String,
    pub grant_type: GrantType,
    pub access_token: Option<String>,
}

/// The form fields of a client-credentials token request, in order.
pub open spec fn credentials_body_model(c: Auth0Client) -> Seq<(Seq<char>, Seq<char>)> {
    seq![
        ("grant_type"@, grant_type_name(c.grant_type)),
        ("client_id"@, c.client_id@),
        ("client_secret"@, c.client_secret@),
        ("audience"@, c.audience@),
    ]
}

/// The form fields of a resource-owner-password token request, in order.
pub open spec fn password_body_model(
    c: Auth0Client,
    username: Seq<char>,
    password: Seq<char>,
) -> Seq<(Seq<char>, Seq<char>)> {
    credentials_body_model(c) + seq![("username"@, username), ("password"@, password)]
}

pub open spec fn body_matches(body: Seq<(String, String)>, model: Seq<(Seq<char>, Seq<char>)>) -> bool {
    body.len() == model.len() && (forall|i: int|
        0 <= i < body.len() ==> (#[trigger] body[i]).0@ == model[i].0 && body[i].1@ == model[i].1)
}

impl Auth0Client {
    /// A fresh, unauthenticated client for the client-credentials grant.
    pub fn new(client_id: &str, client_secret: &str, domain: &str, audience: &str) -> (r: Self)
        ensures
            r.client_id@ == client_id@,
            r.client_secret@ == client_secret@,
            r.domain@ == domain@,
            r.audience@ == audience@,
            r.grant_type == GrantType::ClientCredentials,
            r.access_token is None,
    {
        Auth0Client {
            client_id: String::from_str(client_id),
            client_secret: String::from_str(client_secret),
            domain: String::from_str(domain),
            audience: String::from_str(audience),
            grant_type: GrantType::ClientCredentials,
            access_token: None,
        }
    }

    /// The access token if authenticated, or `None` if not.
    pub fn access_token(&self) -> (r: Option<String>)
        ensures
            r == self.access_token,
    {
        match &self.access_token {
            Some(t) => Some(t.clone()),
            None => None,
        }
    }

    /// Records the token a successful authentication returned.
    pub fn store_access_token(&mut self, token: String)
        ensures
            final(self).access_token == Some(token),
            final(self).client_id == old(self).client_id,
            final(self).client_secret == old(self).client_secret,
            final(self).domain == old(self).domain,
            final(self).audience == old(self).audience,
            final(self).grant_type == old(self).grant_type,
    {
        self.access_token = Some(token);
    }

    /// The token endpoint this client authenticates at.
    pub fn token_endpoint_url(&self) -> (r: String)
        ensures
            r@ == crate::urls::token_endpoint_url_spec(self.domain@),
    {
        crate::urls::token_endpoint_url(self.domain.as_str())
    }

    /// The request body of an `authenticate` call, as form fields.
    pub fn credentials_request_body(&self) -> (r: Vec<(String, String)>)
        ensures
            body_matches(r@, credentials_body_model(*self)),
    {
        let mut body: Vec<(String, String)> = Vec::new();
        body.push((String::from_str("grant_type"), String::from_str(self.grant_type.as_str())));
        body.push((String::from_str("client_id"), self.client_id.clone()));
        body.push((String::from_str("client_secret"), self.client_secret.clone()));
        body.push((String::from_str("audience"), self.audience.clone()));
        body
    }

    /// The request body of an `authenticate_user` call: the credentials
    /// fields, then the user's name and password.
    pub fn password_request_body(&self, username: String, password: String) -> (r: Vec<
        (String, String),
    >)
        ensures
            body_matches(r@, password_body_model(*self, username@, password@)),
    {
        let mut body = self.credentials_request_body();
        body.push((String::from_str("username"), username));
        body.push((String::from_str("password"), password));
        body
    }
}

} // verus!
