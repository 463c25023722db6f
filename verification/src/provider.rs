//! What the library has from the `oauth2` crate and from the `http` and `url` crates that
//! `oauth2` hands on, and what an identity provider's answers amount to.
//!
//! The functions marked `external_body` are believed, not proved. Each says above it which
//! outside function it calls and what is claimed of it.

use crate::error::{ErrorCodes, OAuth2Error};
use crate::text::{same_text, text_of, text_pairs_of, texts};
use oauth2::basic::BasicClient;
use oauth2::http::HeaderValue;
use oauth2::url::Url;
use oauth2::{AuthUrl, ClientId, CsrfToken, RedirectUrl, Scope};
use vstd::prelude::*;
use vstd::string::*;

verus! {

/// Whether `oauth2` takes a text for a URL.
pub uninterp spec fn url_accepted(text: Seq<char>) -> bool;

/// The URL to which `oauth2` sends the user for an authorization code: the authorization
/// endpoint with the client id, the redirect URI, the scopes and the anti-forgery state in its
/// query. None where the endpoint or the redirect URI is no URL.
pub uninterp spec fn authorization_url_of(
    auth_url: Seq<char>,
    client_id: Seq<char>,
    redirect_uri: Seq<char>,
    scopes: Seq<Seq<char>>,
    state: Seq<char>,
) -> Option<Seq<char>>;

/// The name and value pairs in the query of a URL, decoded, in their order. None where the text
/// is no URL.
pub uninterp spec fn query_pairs_of(url: Seq<char>) -> Option<Seq<(Seq<char>, Seq<char>)>>;

/// Whether a character may stand in the value of an HTTP header: a tab, or anything from the
/// space upwards but the delete character.
pub open spec fn header_char(c: char) -> bool {
    c == '\t' || (c as u32 >= 32 && c as u32 != 127)
}

/// Whether a text may stand as the value of an HTTP header.
pub open spec fn header_text(text: Seq<char>) -> bool {
    forall|i: int| 0 <= i < text.len() ==> header_char(#[trigger] text[i])
}

/// Calls `oauth2::AuthUrl::new`, which parses the text with `url::Url::parse`, and says whether
/// it succeeded. The claim: the answer depends on the text alone.
#[verifier::external_body]
pub(crate) fn is_url(text: &str) -> (accepted: bool)
    ensures
        accepted == url_accepted(text@),
{
    AuthUrl::new(text.to_string()).is_ok()
}

/// How many characters an anti-forgery state has: 16 bytes, written in base 64 without padding.
pub const STATE_LENGTH: usize = 22;

/// Calls `oauth2::CsrfToken::new_random` for a fresh anti-forgery state. It draws 16 bytes at
/// random and writes them in base 64 without padding. The claim: the text has 22 characters.
/// Nothing is claimed of which.
#[verifier::external_body]
pub(crate) fn random_state() -> (state: String)
    ensures
        state@.len() == STATE_LENGTH,
{
    CsrfToken::new_random().secret().clone()
}

/// Builds the authorization URL with `oauth2`: a `BasicClient` for the client id and the
/// authorization endpoint, `set_redirect_uri`, then `authorize_url`, `add_scopes` and `url`.
/// The claims: the URL depends on the five arguments alone, and there is one exactly where
/// `AuthUrl::new` takes the endpoint and `RedirectUrl::new` takes the redirect URI, both of
/// which accept what `url::Url::parse` accepts.
#[verifier::external_body]
pub(crate) fn authorization_url(
    auth_url: &str,
    client_id: &str,
    redirect_uri: &str,
    scopes: &Vec<String>,
    state: &str,
) -> (url: Option<String>)
    ensures
        text_of(url) == authorization_url_of(
            auth_url@,
            client_id@,
            redirect_uri@,
            texts(scopes@),
            state@,
        ),
        url is Some <==> (url_accepted(auth_url@) && url_accepted(redirect_uri@)),
{
    let endpoint = AuthUrl::new(auth_url.to_string()).ok()?;
    let client = BasicClient::new(ClientId::new(client_id.to_string()), None, endpoint, None)
        .set_redirect_uri(RedirectUrl::new(redirect_uri.to_string()).ok()?);
    let request = client.authorize_url(|| CsrfToken::new(state.to_string()));
    Some(request.add_scopes(scopes.iter().cloned().map(Scope::new)).url().0.to_string())
}

/// Parses a URL with `url::Url::parse` and lists the pairs of its query with
/// `Url::query_pairs`, which decodes them as a form. The claim: the list depends on the text
/// alone.
#[verifier::external_body]
pub(crate) fn query_pairs(url: &str) -> (pairs: Option<Vec<(String, String)>>)
    ensures
        text_pairs_of(pairs) == query_pairs_of(url@),
{
    Some(Url::parse(url).ok()?.query_pairs().into_owned().collect())
}

/// Calls `http::HeaderValue::from_str` and says whether it took the text. It refuses a text
/// exactly where one of its bytes is below 32 and no tab, or is 127; the bytes of a character
/// beyond ASCII are all above 127.
#[verifier::external_body]
pub(crate) fn is_header_value(text: &str) -> (accepted: bool)
    ensures
        accepted == header_text(text@),
{
    HeaderValue::from_str(text).is_ok()
}

/// How a client proves to the token endpoint who it is.
#[derive(Clone, Copy, Debug, PartialEq, Eq, Structural)]
pub enum AuthType {
    /// The client id and secret travel in the body of the request.
    RequestBody,
    /// The client id and secret travel in an `Authorization` header.
    BasicAuth,
}

/// What an OAuth2 client is set up with before it talks to a provider.
#[derive(Clone, Debug, PartialEq, Eq)]
pub struct ClientSettings {
    pub client_id: String,
    pub client_secret: Option<String>,
    pub auth_url: String,
    pub token_url: String,
    pub auth_type: AuthType,
    pub redirect_url: Option<String>,
    pub device_authorization_url: Option<String>,
}

/// [`ClientSettings`] as plain values.
pub struct SettingsRecord {
    pub client_id: Seq<char>,
    pub client_secret: Option<Seq<char>>,
    pub auth_url: Seq<char>,
    pub token_url: Seq<char>,
    pub auth_type: AuthType,
    pub redirect_url: Option<Seq<char>>,
    pub device_authorization_url: Option<Seq<char>>,
}

impl View for ClientSettings {
    type V = SettingsRecord;

    open spec fn view(&self) -> SettingsRecord {
        SettingsRecord {
            client_id: self.client_id@,
            client_secret: text_of(self.client_secret),
            auth_url: self.auth_url@,
            token_url: self.token_url@,
            auth_type: self.auth_type,
            redirect_url: text_of(self.redirect_url),
            device_authorization_url: text_of(self.device_authorization_url),
        }
    }
}

impl SettingsRecord {
    /// Whether every endpoint of the settings is a URL.
    pub open spec fn usable(self) -> bool {
        &&& url_accepted(self.auth_url)
        &&& url_accepted(self.token_url)
        &&& self.redirect_url matches Some(url) ==> url_accepted(url)
        &&& self.device_authorization_url matches Some(url) ==> url_accepted(url)
    }
}

/// The failure to report for an endpoint that is no URL.
pub(crate) fn not_a_url() -> (e: OAuth2Error)
    ensures
        e.error_code == ErrorCodes::InvalidUrl,
        e.error_message@ == "An endpoint is not a URL."@,
{
    OAuth2Error::with_text(ErrorCodes::InvalidUrl, "An endpoint is not a URL.")
}

/// How an exchange with the identity provider failed.
#[derive(Clone, Debug, PartialEq, Eq)]
pub enum ExchangeFailure {
    /// The provider answered with an error: its code and, where it gave one, its description.
    ServerResponse { error: String, description: Option<String> },
    /// The request could not be sent, or no answer came back.
    Request(String),
    /// The provider's answer could not be read.
    Parse(String),
    /// Anything else.
    Other(String),
}

/// The text that goes with a provider's error: its code, then a colon and the description
/// where there is one.
pub open spec fn server_error_text(error: Seq<char>, description: Option<Seq<char>>) -> Seq<char> {
    match description {
        Some(d) => error + ": "@ + d,
        None => error,
    }
}

/// The kind of failure that a failed exchange of a code or of a refresh token amounts to.
pub open spec fn exchange_error_code(failure: ExchangeFailure) -> ErrorCodes {
    match failure {
        ExchangeFailure::Request(_) => ErrorCodes::TransportError,
        _ => ErrorCodes::ExchangeError,
    }
}

/// The kind of failure that a failed poll for a device's token amounts to.
pub open spec fn poll_error_code(failure: ExchangeFailure) -> ErrorCodes {
    match failure {
        ExchangeFailure::ServerResponse { error, description } => if error@ == "access_denied"@ {
            ErrorCodes::Denied
        } else if error@ == "expired_token"@ {
            ErrorCodes::Expired
        } else {
            ErrorCodes::ExchangeError
        },
        ExchangeFailure::Request(_) => ErrorCodes::TransportError,
        _ => ErrorCodes::ExchangeError,
    }
}

/// The text that goes with a failed exchange.
pub open spec fn failure_text(failure: ExchangeFailure) -> Seq<char> {
    match failure {
        ExchangeFailure::ServerResponse { error, description } => server_error_text(
            error@,
            text_of(description),
        ),
        ExchangeFailure::Request(why) => why@,
        ExchangeFailure::Parse(why) => why@,
        ExchangeFailure::Other(why) => why@,
    }
}

fn failure_message(failure: ExchangeFailure) -> (text: String)
    ensures
        text@ == failure_text(failure),
{
    match failure {
        ExchangeFailure::ServerResponse { error, description } => {
            let mut text = error;
            match description {
                Some(d) => {
                    text.append(": ");
                    text.append(d.as_str());
                },
                None => {},
            }
            text
        },
        ExchangeFailure::Request(why) => why,
        ExchangeFailure::Parse(why) => why,
        ExchangeFailure::Other(why) => why,
    }
}

/// The failure that a failed exchange of a code or of a refresh token amounts to: a transport
/// error where the request never got through, an exchange error otherwise.
pub fn exchange_error(failure: ExchangeFailure) -> (e: OAuth2Error)
    ensures
        e.error_code == exchange_error_code(failure),
        e.error_message@ == failure_text(failure),
{
    let code = match &failure {
        ExchangeFailure::Request(_) => ErrorCodes::TransportError,
        _ => ErrorCodes::ExchangeError,
    };
    OAuth2Error::new(code, failure_message(failure))
}

/// The failure that a failed poll for a device's token amounts to: `Denied` where the provider
/// answered `access_denied`, `Expired` where it answered `expired_token`, a transport error
/// where the request never got through, an exchange error otherwise.
pub fn poll_error(failure: ExchangeFailure) -> (e: OAuth2Error)
    ensures
        e.error_code == poll_error_code(failure),
        e.error_message@ == failure_text(failure),
{
    let code = match &failure {
        ExchangeFailure::ServerResponse { error, description } => {
            if same_text(error.as_str(), "access_denied") {
                ErrorCodes::Denied
            } else if same_text(error.as_str(), "expired_token") {
                ErrorCodes::Expired
            } else {
                ErrorCodes::ExchangeError
            }
        },
        ExchangeFailure::Request(_) => ErrorCodes::TransportError,
        _ => ErrorCodes::ExchangeError,
    };
    OAuth2Error::new(code, failure_message(failure))
}

} // verus!
