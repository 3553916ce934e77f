//! The two-step OAuth2 authorization-code handshake with the identity
//! provider.
//!
//! The network calls themselves live with the caller; this module builds the
//! outgoing requests and decides what every possible reply means: which
//! replies yield a provider access token, which a user profile, and which
//! error each failure maps to. Both steps must succeed, in order, and nothing
//! is retried.

use vstd::prelude::*;

use crate::digits::parse_u64;
use crate::digits::spec_parse_u64;
use vstd::utf8::encode_utf8;

verus! {

/// Failure of the handshake. `BadExchange` carries what came back from a
/// failed token step or from a non-2xx profile reply; `NoUser` carries what
/// came back when the profile call's transport fails or its 2xx body does not
/// decode to a profile.
#[derive(Debug)]
pub enum ExchangeError {
    BadExchange(String),
    NoUser(String),
}

/// What one outbound call to the provider came back as: a reply (with
/// `success` saying whether the HTTP status was in the 2xx range) or a
/// transport failure (connection error or the 10-second timeout).
pub enum ProviderReply {
    Reply { success: bool, body: String },
    TransportError { message: String },
}

/// One form field of the token request.
pub struct FormField {
    pub key: String,
    pub value: String,
}

/// The external identity fetched from the provider: the numeric user id (a
/// decimal string on the wire), the display name, and the avatar hash when
/// one is set (absent or null on the wire otherwise).
#[derive(Debug)]
pub struct UserProfile {
    pub id: u64,
    pub username: String,
    pub avatar: Option<String>,
}

/// The view of an optional string.
pub open spec fn opt_str_view(o: Option<String>) -> Option<Seq<char>> {
    match o {
        Some(s) => Some(s@),
        None => None,
    }
}

/// The access token field of the provider's token reply, when the body is a
/// JSON object carrying one; a pure function of the body text.
pub uninterp spec fn access_token_of(body: Seq<char>) -> Option<Seq<char>>;

/// Relies on `serde_json::from_str` and `Value::get`/`as_str`: whether the
/// body parses as JSON with a string `access_token` member, and its content,
/// depend on the body text alone.
#[verifier::external_body]
fn extract_access_token(body: &str) -> (r: Option<String>)
    ensures
        r matches Some(t) ==> access_token_of(body@) == Some(t@),
        r is None ==> access_token_of(body@) is None,
{
    match serde_json::from_str::<serde_json::Value>(body) {
        Ok(v) => v.get("access_token").and_then(|t| t.as_str()).map(|s| s.to_string()),
        Err(_) => None,
    }
}

/// The `id`, `username` and optional `avatar` fields of the provider's
/// profile reply, when the body is a JSON object carrying id and username as
/// strings; a pure function of the body text.
pub uninterp spec fn profile_fields_of(body: Seq<char>) -> Option<
    (Seq<char>, Seq<char>, Option<Seq<char>>),
>;

/// Relies on `serde_json::from_str` and `Value::get`/`as_str`: whether the
/// body parses as JSON with string `id` and `username` members (`avatar` may
/// be absent or null), and their contents, depend on the body text alone.
#[verifier::external_body]
fn extract_profile_fields(body: &str) -> (r: Option<(String, String, Option<String>)>)
    ensures
        r matches Some(p) ==> profile_fields_of(body@) == Some((p.0@, p.1@, opt_str_view(p.2))),
        r is None ==> profile_fields_of(body@) is None,
{
    let v = match serde_json::from_str::<serde_json::Value>(body) {
        Ok(v) => v,
        Err(_) => return None,
    };
    match (v.get("id").and_then(|x| x.as_str()), v.get("username").and_then(|x| x.as_str())) {
        (Some(id), Some(username)) => {
            let avatar = v.get("avatar").and_then(|x| x.as_str()).map(|s| s.to_string());
            Some((id.to_string(), username.to_string(), avatar))
        }
        _ => None,
    }
}

/// The provider's token endpoint.
pub fn token_endpoint() -> (r: String)
    ensures
        r@ == "https://discord.com/api/v10/oauth2/token"@,
{
    String::from_str("https://discord.com/api/v10/oauth2/token")
}

/// The provider's profile endpoint.
pub fn profile_endpoint() -> (r: String)
    ensures
        r@ == "https://discord.com/api/v10/users/@me"@,
{
    String::from_str("https://discord.com/api/v10/users/@me")
}

/// Performs the OAuth2 code-for-identity handshake for one registered
/// application, identified to the provider by its id and secret.
pub struct TokenExchanger {
    pub client_id: String,
    pub client_secret: String,
}

impl TokenExchanger {
    /// The form body of the token request: the application credentials, the
    /// grant type, the authorization code and the redirect URI it was issued
    /// for.
    pub fn token_request(&self, code: &str, redirect_uri: &str) -> (form: Vec<FormField>)
        ensures
            form@.len() == 5,
            form@[0].key@ == "client_id"@ && form@[0].value@ == self.client_id@,
            form@[1].key@ == "client_secret"@ && form@[1].value@ == self.client_secret@,
            form@[2].key@ == "grant_type"@ && form@[2].value@ == "authorization_code"@,
            form@[3].key@ == "code"@ && form@[3].value@ == code@,
            form@[4].key@ == "redirect_uri"@ && form@[4].value@ == redirect_uri@,
    {
        let mut form: Vec<FormField> = Vec::new();
        form.push(
            FormField {
                key: String::from_str("client_id"),
                value: self.client_id.clone(),
            },
        );
        form.push(
            FormField {
                key: String::from_str("client_secret"),
                value: self.client_secret.clone(),
            },
        );
        form.push(
            FormField {
                key: String::from_str("grant_type"),
                value: String::from_str("authorization_code"),
            },
        );
        form.push(FormField { key: String::from_str("code"), value: String::from_str(code) });
        form.push(
            FormField {
                key: String::from_str("redirect_uri"),
                value: String::from_str(redirect_uri),
            },
        );
        form
    }

    /// Decide the token step from the provider's reply: a transport failure
    /// or a non-2xx status fails with `BadExchange` carrying what came back;
    /// a 2xx body yields its access token, or `BadExchange` when it has none.
    pub fn handle_token_response(&self, reply: ProviderReply) -> (r: Result<String, ExchangeError>)
        ensures
            reply matches ProviderReply::TransportError { message } ==> r == Err::<
                String,
                ExchangeError,
            >(ExchangeError::BadExchange(message)),
            reply matches ProviderReply::Reply { success, body } ==> if !success {
                r == Err::<String, ExchangeError>(ExchangeError::BadExchange(body))
            } else {
                match access_token_of(body@) {
                    Some(t) => r matches Ok(tok) && tok@ == t,
                    None => r == Err::<String, ExchangeError>(ExchangeError::BadExchange(body)),
                }
            },
    {
        match reply {
            ProviderReply::TransportError { message } => Err(
                ExchangeError::BadExchange(message),
            ),
            ProviderReply::Reply { success, body } => {
                if !success {
                    return Err(ExchangeError::BadExchange(body));
                }
                match extract_access_token(body.as_str()) {
                    Some(token) => Ok(token),
                    None => Err(ExchangeError::BadExchange(body)),
                }
            },
        }
    }

    /// Decide the profile step from the provider's reply: a non-2xx status
    /// fails with `BadExchange` carrying the provider's body; a transport
    /// failure, an undecodable 2xx body or a non-numeric user id fails with
    /// `NoUser` carrying what came back; otherwise the profile.
    pub fn handle_profile_response(&self, reply: ProviderReply) -> (r: Result<
        UserProfile,
        ExchangeError,
    >)
        ensures
            reply matches ProviderReply::TransportError { message } ==> r == Err::<
                UserProfile,
                ExchangeError,
            >(ExchangeError::NoUser(message)),
            reply matches ProviderReply::Reply { success, body } ==> if !success {
                r == Err::<UserProfile, ExchangeError>(ExchangeError::BadExchange(body))
            } else {
                match profile_fields_of(body@) {
                    Some(fields) => match spec_parse_u64(encode_utf8(fields.0)) {
                        Some(id) => r matches Ok(p) && p.id == id && p.username@ == fields.1
                            && opt_str_view(p.avatar) == fields.2,
                        None => r == Err::<UserProfile, ExchangeError>(ExchangeError::NoUser(body)),
                    },
                    None => r == Err::<UserProfile, ExchangeError>(ExchangeError::NoUser(body)),
                }
            },
    {
        match reply {
            ProviderReply::TransportError { message } => Err(ExchangeError::NoUser(message)),
            ProviderReply::Reply { success, body } => {
                if !success {
                    return Err(ExchangeError::BadExchange(body));
                }
                match extract_profile_fields(body.as_str()) {
                    Some((id_text, username, avatar)) => match parse_u64(
                        id_text.as_str().as_bytes(),
                    ) {
                        Some(id) => Ok(UserProfile { id, username, avatar }),
                        None => Err(ExchangeError::NoUser(body)),
                    },
                    None => Err(ExchangeError::NoUser(body)),
                }
            },
        }
    }
}

} // verus!
