//! A login by the device-code flow that keeps nothing: it asks for the right to send mail, tells
//! the user where to enter the code, and hands out the access token that the polling ends with.

use crate::device_code_flow::{device_client, device_login, DeviceFlowView};
use crate::error::{ErrorCodes, OAuth2Result};
use crate::flow::{asked, Request, Stage};
use crate::provider::{failure_text, poll_error, poll_error_code, ClientSettings, ExchangeFailure};
use crate::text::{text_of, texts};
use crate::token_keeper::TokenResponse;
use vstd::prelude::*;
use vstd::string::*;

verus! {

/// The scopes that sending mail takes: a refresh token, and the right to send.
pub open spec fn mail_scopes() -> Seq<Seq<char>> {
    seq!["offline_access"@, "Mail.Send"@]
}

pub trait Login {
    /// How a login begins: the request for a device code.
    fn request_login(&self) -> (Stage, Option<Request>);

    /// The access token that the polling ended with, or the failure that it ended in.
    fn poll_access_token(&self, polled: Result<TokenResponse, ExchangeFailure>) -> OAuth2Result<
        String,
    >;
}

/// An OAuth2 client that logs in by the device-code flow.
#[derive(Clone, Debug, PartialEq, Eq)]
pub struct LoginWorkFlow {
    client_id: String,
    client_secret: Option<String>,
    device_auth_endpoint: String,
    token_endpoint: String,
}

impl View for LoginWorkFlow {
    type V = DeviceFlowView;

    closed spec fn view(&self) -> DeviceFlowView {
        DeviceFlowView {
            client_id: self.client_id@,
            client_secret: text_of(self.client_secret),
            device_auth_endpoint: self.device_auth_endpoint@,
            token_endpoint: self.token_endpoint@,
        }
    }
}

impl LoginWorkFlow {
    pub fn new(
        client_id: String,
        client_secret: Option<String>,
        device_auth_endpoint: String,
        token_endpoint: String,
    ) -> (flow: Self)
        ensures
            flow@ == (DeviceFlowView {
                client_id: client_id@,
                client_secret: text_of(client_secret),
                device_auth_endpoint: device_auth_endpoint@,
                token_endpoint: token_endpoint@,
            }),
    {
        Self { client_id, client_secret, device_auth_endpoint, token_endpoint }
    }

    /// The settings of the client that talks to the provider. Fails with `InvalidUrl` exactly
    /// where an endpoint is no URL.
    pub fn create_client(&self) -> (made: OAuth2Result<ClientSettings>)
        ensures
            match made {
                Ok(settings) => settings@ == self@.settings() && settings@.usable(),
                Err(e) => !self@.settings().usable() && e.error_code == ErrorCodes::InvalidUrl
                    && e.error_message@ == "An endpoint is not a URL."@,
            },
    {
        device_client(
            &self.client_id,
            &self.client_secret,
            &self.device_auth_endpoint,
            &self.token_endpoint,
        )
    }
}

impl Login for LoginWorkFlow {
    fn request_login(&self) -> (next: (Stage, Option<Request>))
        ensures
            (next.0@, asked(next.1)) == self@.login_model(mail_scopes()),
    {
        let mut scopes: Vec<String> = Vec::new();
        scopes.push(String::from_str("offline_access"));
        scopes.push(String::from_str("Mail.Send"));
        assert(texts(scopes@) =~= mail_scopes());
        device_login(self.create_client(), scopes)
    }

    fn poll_access_token(&self, polled: Result<TokenResponse, ExchangeFailure>) -> (token:
        OAuth2Result<String>)
        ensures
            match polled {
                Ok(response) => token matches Ok(t) && t@ == response.access_token@,
                Err(failure) => token matches Err(e) && e.error_code == poll_error_code(failure)
                    && e.error_message@ == failure_text(failure),
            },
    {
        match polled {
            Ok(response) => Ok(response.access_token),
            Err(failure) => Err(poll_error(failure)),
        }
    }
}

} // verus!
