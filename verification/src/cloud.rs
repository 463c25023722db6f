//! The device-code flow for sending mail over SMTP: a client that asks for just the scopes that
//! this takes.

use crate::device_code_flow::{device_client, device_login, poll, poll_model, DeviceFlowView};
use crate::error::{ErrorCodes, OAuth2Result};
use crate::flow::{asked, renew, renew_model, DeviceAuthorization, Reply, Request, Stage};
use crate::provider::ClientSettings;
use crate::text::{text_of, texts};
use vstd::prelude::*;
use vstd::string::*;

verus! {

/// The scopes that sending mail over SMTP takes: a refresh token, and the right to send.
pub open spec fn smtp_scopes() -> Seq<Seq<char>> {
    seq!["offline_access"@, "SMTP.Send"@]
}

pub trait Cloud {
    /// How a login begins: the request for a device code.
    fn request_login(&self) -> (Stage, Option<Request>);

    /// What follows the provider's authorization of the device: the polling.
    fn poll_access_token(&self, device_auth_response: DeviceAuthorization, now: u64) -> (
        Stage,
        Option<Request>,
    );

    /// One step towards a usable token from the cache.
    fn get_access_token(
        &self,
        file_directory: &str,
        stage: Stage,
        reply: Option<Reply>,
        now: u64,
    ) -> (Stage, Option<Request>);
}

/// An OAuth2 client that obtains tokens for SMTP by the device-code flow.
#[derive(Clone, Debug, PartialEq, Eq)]
pub struct OAuth2Cloud {
    client_id: String,
    client_secret: Option<String>,
    device_auth_endpoint: String,
    token_endpoint: String,
}

impl View for OAuth2Cloud {
    type V = DeviceFlowView;

    closed spec fn view(&self) -> DeviceFlowView {
        DeviceFlowView {
            client_id: self.client_id@,
            client_secret: text_of(self.client_secret),
            device_auth_endpoint: self.device_auth_endpoint@,
            token_endpoint: self.token_endpoint@,
        }
    }
}

impl OAuth2Cloud {
    pub fn new(
        client_id: String,
        client_secret: Option<String>,
        device_auth_endpoint: String,
        token_endpoint: String,
    ) -> (cloud: Self)
        ensures
            cloud@ == (DeviceFlowView {
                client_id: client_id@,
                client_secret: text_of(client_secret),
                device_auth_endpoint: device_auth_endpoint@,
                token_endpoint: token_endpoint@,
            }),
    {
        Self { client_id, client_secret, device_auth_endpoint, token_endpoint }
    }

    /// The settings of the client that talks to the provider. Fails with `InvalidUrl` exactly
    /// where an endpoint is no URL.
    pub fn create_client(&self) -> (made: OAuth2Result<ClientSettings>)
        ensures
            match made {
                Ok(settings) => settings@ == self@.settings() && settings@.usable(),
                Err(e) => !self@.settings().usable() && e.error_code == ErrorCodes::InvalidUrl
                    && e.error_message@ == "An endpoint is not a URL."@,
            },
    {
        device_client(
            &self.client_id,
            &self.client_secret,
            &self.device_auth_endpoint,
            &self.token_endpoint,
        )
    }
}

impl Cloud for OAuth2Cloud {
    fn request_login(&self) -> (next: (Stage, Option<Request>))
        ensures
            (next.0@, asked(next.1)) == self@.login_model(smtp_scopes()),
    {
        let mut scopes: Vec<String> = Vec::new();
        scopes.push(String::from_str("offline_access"));
        scopes.push(String::from_str("SMTP.Send"));
        assert(texts(scopes@) =~= smtp_scopes());
        device_login(self.create_client(), scopes)
    }

    fn poll_access_token(&self, device_auth_response: DeviceAuthorization, now: u64) -> (next: (
        Stage,
        Option<Request>,
    ))
        ensures
            (next.0@, asked(next.1)) == poll_model(device_auth_response, now),
    {
        poll(device_auth_response, now)
    }

    fn get_access_token(
        &self,
        file_directory: &str,
        stage: Stage,
        reply: Option<Reply>,
        now: u64,
    ) -> (next: (Stage, Option<Request>))
        ensures
            (next.0@, asked(next.1)) == renew_model(stage@, reply, now, file_directory@),
    {
        renew(stage, reply, now, file_directory)
    }
}

} // verus!
