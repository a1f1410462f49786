//! The password-grant exchange: what is sent to the token endpoint, and what
//! is made of its reply.

use vstd::prelude::*;
use vstd::string::*;
use crate::http::HttpReply;

verus! {

/// `serde_json::Value`, a parsed JSON document. It is carried as it is; the
/// library reads it through [`string_member`] only.
#[verifier::external_type_specification]
#[verifier::external_body]
pub struct ExJsonValue(serde_json::Value);

/// `serde_json::Error`, the reason why a body is no JSON document. It is
/// never looked into.
#[verifier::external_type_specification]
#[verifier::external_body]
pub struct ExJsonError(serde_json::Error);

/// The members of a JSON document whose values are strings, by key. A
/// document that is not an object has none.
pub uninterp spec fn string_members(document: serde_json::Value) -> Map<Seq<char>, Seq<char>>;

/// The string members of the JSON document that a body holds, or `None` where
/// the body is not one JSON document.
pub uninterp spec fn parsed_members(body: Seq<u8>) -> Option<Map<Seq<char>, Seq<char>>>;

/// Calls `serde_json::from_slice` for a `serde_json::Value`. Whether it
/// succeeds, and the document it gives, depend on the bytes alone.
#[verifier::external_body]
fn parse_document(body: &[u8]) -> (parsed: Result<serde_json::Value, serde_json::Error>)
    ensures
        match parsed {
            Ok(document) => parsed_members(body@) == Some(string_members(document)),
            Err(_) => parsed_members(body@) is None,
        },
{
    serde_json::from_slice::<serde_json::Value>(body)
}

/// Indexes a `serde_json::Value` by `key` and takes the result's
/// `Value::as_str`: the text of the member `key` when the document is an
/// object that has the member and its value is a string, `None` otherwise.
#[verifier::external_body]
fn string_member(document: &serde_json::Value, key: &str) -> (member: Option<String>)
    ensures
        match member {
            Some(text) => string_members(*document).contains_key(key@) && string_members(
                *document,
            )[key@] == text@,
            None => !string_members(*document).contains_key(key@),
        },
{
    match document[key].as_str() {
        Some(text) => Some(text.to_string()),
        None => None,
    }
}

/// Why no token was obtained.
#[derive(Debug, Clone, Copy, PartialEq, Eq)]
pub enum AuthError {
    /// The exchange failed in transport.
    Transport,
    /// The reply's body is not a JSON document.
    UnreadableResponse,
    /// The reply has no string member `access_token`.
    MissingToken,
}

/// Why a run cannot begin: the first of the four secrets that is missing.
#[derive(Debug, Clone, Copy, PartialEq, Eq)]
pub enum ConfigError {
    MissingClientId,
    MissingClientSecret,
    MissingUsername,
    MissingPassword,
}

/// The four secrets of a password grant.
#[derive(Debug, Clone, PartialEq)]
pub struct Credentials {
    pub client_id: String,
    pub client_secret: String,
    pub username: String,
    pub password: String,
}

/// The request that asks for a token. It is sent as a `POST` with HTTP Basic
/// authentication and a form body of the three fields.
#[derive(Debug, Clone, PartialEq)]
pub struct TokenRequest {
    pub url: String,
    pub user_agent: String,
    pub basic_user: String,
    pub basic_password: String,
    pub grant_type: String,
    pub username: String,
    pub password: String,
}

/// The key of the reply's member that holds the token.
pub open spec fn token_key() -> Seq<char> {
    "access_token"@
}

/// The address of the token endpoint.
pub open spec fn token_endpoint() -> Seq<char> {
    "https://www.reddit.com/api/v1/access_token"@
}

/// The grant that the exchange asks for.
pub open spec fn password_grant() -> Seq<char> {
    "password"@
}

/// The token that a reply's string members hold, or why there is none.
pub open spec fn token_in(members: Option<Map<Seq<char>, Seq<char>>>) -> Result<
    Seq<char>,
    AuthError,
> {
    match members {
        None => Err(AuthError::UnreadableResponse),
        Some(found) => if found.contains_key(token_key()) {
            Ok(found[token_key()])
        } else {
            Err(AuthError::MissingToken)
        },
    }
}

/// The token that a reply yields, or why there is none. The status code of
/// the reply plays no part.
pub open spec fn token_of_reply(reply: HttpReply) -> Result<Seq<char>, AuthError> {
    match reply {
        HttpReply::Failed => Err(AuthError::Transport),
        HttpReply::Received { status, body } => token_in(parsed_members(body@)),
    }
}

/// `found` is `expected`, the token taken by its text.
pub open spec fn token_matches(
    found: Result<String, AuthError>,
    expected: Result<Seq<char>, AuthError>,
) -> bool {
    match found {
        Ok(token) => expected == Ok::<Seq<char>, AuthError>(token@),
        Err(error) => expected == Err::<Seq<char>, AuthError>(error),
    }
}

/// The first of the four secrets that is missing, if one is.
pub open spec fn first_missing(
    client_id: Option<String>,
    client_secret: Option<String>,
    username: Option<String>,
    password: Option<String>,
) -> Option<ConfigError> {
    if client_id is None {
        Some(ConfigError::MissingClientId)
    } else if client_secret is None {
        Some(ConfigError::MissingClientSecret)
    } else if username is None {
        Some(ConfigError::MissingUsername)
    } else if password is None {
        Some(ConfigError::MissingPassword)
    } else {
        None
    }
}

impl TokenRequest {
    /// The request is the one that asks for a token for `credentials`, under
    /// this user agent.
    pub open spec fn asks_for(&self, credentials: Credentials, user_agent: Seq<char>) -> bool {
        &&& self.url@ == token_endpoint()
        &&& self.user_agent@ == user_agent
        &&& self.basic_user@ == credentials.client_id@
        &&& self.basic_password@ == credentials.client_secret@
        &&& self.grant_type@ == password_grant()
        &&& self.username@ == credentials.username@
        &&& self.password@ == credentials.password@
    }
}

/// Gathers the four secrets from what was found of each. All four are
/// needed; the first that is missing is named.
pub fn credentials_from(
    client_id: Option<String>,
    client_secret: Option<String>,
    username: Option<String>,
    password: Option<String>,
) -> (gathered: Result<Credentials, ConfigError>)
    ensures
        match gathered {
            Ok(credentials) => {
                &&& client_id == Some(credentials.client_id)
                &&& client_secret == Some(credentials.client_secret)
                &&& username == Some(credentials.username)
                &&& password == Some(credentials.password)
            },
            Err(error) => first_missing(client_id, client_secret, username, password) == Some(
                error,
            ),
        },
{
    match client_id {
        None => Err(ConfigError::MissingClientId),
        Some(client_id) => match client_secret {
            None => Err(ConfigError::MissingClientSecret),
            Some(client_secret) => match username {
                None => Err(ConfigError::MissingUsername),
                Some(username) => match password {
                    None => Err(ConfigError::MissingPassword),
                    Some(password) => Ok(
                        Credentials { client_id, client_secret, username, password },
                    ),
                },
            },
        },
    }
}

/// Builds the request for a token.
pub fn token_request(credentials: &Credentials, user_agent: &str) -> (request: TokenRequest)
    ensures
        request.asks_for(*credentials, user_agent@),
{
    TokenRequest {
        url: String::from_str("https://www.reddit.com/api/v1/access_token"),
        user_agent: String::from_str(user_agent),
        basic_user: credentials.client_id.clone(),
        basic_password: credentials.client_secret.clone(),
        grant_type: String::from_str("password"),
        username: credentials.username.clone(),
        password: credentials.password.clone(),
    }
}

/// Decides on the member that was looked up under the token's key: its text
/// is the token; without it there is none.
pub fn token_from_member(member: Option<String>) -> (token: Result<String, AuthError>)
    ensures
        match member {
            Some(text) => token == Ok::<String, AuthError>(text),
            None => token == Err::<String, AuthError>(AuthError::MissingToken),
        },
{
    match member {
        Some(text) => Ok(text),
        None => Err(AuthError::MissingToken),
    }
}

/// Reads the token out of the body of a reply.
pub fn token_from_body(body: &[u8]) -> (token: Result<String, AuthError>)
    ensures
        token_matches(token, token_in(parsed_members(body@))),
{
    match parse_document(body) {
        Ok(document) => token_from_member(string_member(&document, "access_token")),
        Err(_) => Err(AuthError::UnreadableResponse),
    }
}

/// Reads the token out of what came back from the token endpoint.
pub fn token_from_reply(reply: &HttpReply) -> (token: Result<String, AuthError>)
    ensures
        token_matches(token, token_of_reply(*reply)),
{
    match reply {
        HttpReply::Failed => Err(AuthError::Transport),
        HttpReply::Received { status, body } => token_from_body(body.as_slice()),
    }
}

} // verus!
