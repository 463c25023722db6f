//! The sender's profile: who the mail is from, as the mail service knows the holder of the token.

use crate::error::{ErrorCodes, OAuth2Error, OAuth2Result};
use crate::provider::{header_text, is_header_value, is_url, not_a_url, url_accepted};
use vstd::prelude::*;
use vstd::string::*;

verus! {

/// Where the mail service answers for the profile of the token's holder.
pub const PROFILE_URL: &'static str = "https://outlook.office.com/api/v2.0/me/";

/// The profile of a mailbox's owner.
#[derive(Clone, Debug, PartialEq, Eq)]
pub struct SenderProfile {
    odata_context: String,
    odata_id: String,
    id: String,
    pub email_address: String,
    pub display_name: String,
    alias: String,
    mailbox_guid: String,
}

/// A [`SenderProfile`] as plain values.
pub struct ProfileRecord {
    pub odata_context: Seq<char>,
    pub odata_id: Seq<char>,
    pub id: Seq<char>,
    pub email_address: Seq<char>,
    pub display_name: Seq<char>,
    pub alias: Seq<char>,
    pub mailbox_guid: Seq<char>,
}

/// The request that asks the mail service for the sender's profile: a GET of `url` with
/// `authorization` as the value of the `Authorization` header.
#[derive(Clone, Debug, PartialEq, Eq)]
pub struct ProfileRequest {
    pub url: String,
    pub authorization: String,
}

impl View for SenderProfile {
    type V = ProfileRecord;

    closed spec fn view(&self) -> ProfileRecord {
        ProfileRecord {
            odata_context: self.odata_context@,
            odata_id: self.odata_id@,
            id: self.id@,
            email_address: self.email_address@,
            display_name: self.display_name@,
            alias: self.alias@,
            mailbox_guid: self.mailbox_guid@,
        }
    }
}

/// Why the mail service's answer gave no profile.
#[derive(Clone, Debug, PartialEq, Eq)]
pub enum ProfileFailure {
    /// The request could not be sent, or no answer came back.
    Request(String),
    /// The answer is no profile.
    Parse(String),
}

/// The value of the `Authorization` header that presents an access token.
pub open spec fn bearer(access_token: Seq<char>) -> Seq<char> {
    "Bearer "@ + access_token
}

impl SenderProfile {
    pub fn new(
        odata_context: String,
        odata_id: String,
        id: String,
        email_address: String,
        display_name: String,
        alias: String,
        mailbox_guid: String,
    ) -> (profile: Self)
        ensures
            profile@ == (ProfileRecord {
                odata_context: odata_context@,
                odata_id: odata_id@,
                id: id@,
                email_address: email_address@,
                display_name: display_name@,
                alias: alias@,
                mailbox_guid: mailbox_guid@,
            }),
    {
        Self { odata_context, odata_id, id, email_address, display_name, alias, mailbox_guid }
    }

    /// The request that asks the mail service for the profile of the holder of `access_token`.
    /// Fails with `InvalidHeader` exactly where a character of the token cannot stand in a
    /// header; with `InvalidUrl` where all can and the service's address is no URL.
    pub fn get_sender_profile(access_token: &str) -> (request: OAuth2Result<ProfileRequest>)
        ensures
            match request {
                Ok(r) => r.url@ == PROFILE_URL@ && r.authorization@ == bearer(access_token@)
                    && header_text(access_token@) && url_accepted(PROFILE_URL@),
                Err(e) => if header_text(access_token@) {
                    !url_accepted(PROFILE_URL@) && e.error_code == ErrorCodes::InvalidUrl
                        && e.error_message@ == "An endpoint is not a URL."@
                } else {
                    e.error_code == ErrorCodes::InvalidHeader && e.error_message@
                        == "The access token cannot stand in a header."@
                },
            },
    {
        proof {
            lemma_bearer_is_as_good_as_its_token(access_token@);
        }
        let authorization = String::from_str("Bearer ").concat(access_token);
        if !is_header_value(authorization.as_str()) {
            return Err(
                OAuth2Error::with_text(
                    ErrorCodes::InvalidHeader,
                    "The access token cannot stand in a header.",
                ),
            );
        }
        if !is_url(PROFILE_URL) {
            return Err(not_a_url());
        }
        Ok(ProfileRequest { url: String::from_str(PROFILE_URL), authorization })
    }
}

/// The failure that a request for the profile ends in: a transport error where the request
/// never got through, `Malformed` where the answer is no profile.
pub fn profile_error(failure: ProfileFailure) -> (e: OAuth2Error)
    ensures
        match failure {
            ProfileFailure::Request(why) => e.error_code == ErrorCodes::TransportError
                && e.error_message@ == why@,
            ProfileFailure::Parse(why) => e.error_code == ErrorCodes::Malformed
                && e.error_message@ == why@,
        },
{
    match failure {
        ProfileFailure::Request(why) => OAuth2Error::new(ErrorCodes::TransportError, why),
        ProfileFailure::Parse(why) => OAuth2Error::new(ErrorCodes::Malformed, why),
    }
}

/// An access token can be presented in a header exactly where each of its characters can stand
/// in one.
proof fn lemma_bearer_is_as_good_as_its_token(access_token: Seq<char>)
    ensures
        header_text(bearer(access_token)) <==> header_text(access_token),
{
    reveal_strlit("Bearer ");
    let prefix = "Bearer "@;
    let whole = bearer(access_token);
    if header_text(whole) {
        assert forall|i: int| 0 <= i < access_token.len() implies crate::provider::header_char(
            #[trigger] access_token[i],
        ) by {
            assert(whole[i + prefix.len()] == access_token[i]);
        }
    }
    if header_text(access_token) {
        assert forall|i: int| 0 <= i < whole.len() implies crate::provider::header_char(
            #[trigger] whole[i],
        ) by {
            if i >= prefix.len() {
                assert(whole[i] == access_token[i - prefix.len()]);
            }
        }
    }
}

} // verus!
