//! The device-code flow: the provider issues a code for the user to enter on another device,
//! and the token endpoint is polled until the user has decided or the session has run out.

use crate::error::{ErrorCodes, OAuth2Result};
use crate::flow::{
    answered_out_of_turn, asked, exchange_failed, issue, issue_model, lemma_renewal_moves_on,
    moves_on, out_of_turn, read_model, renew, renew_model, token_read, DeviceAuthorization,
    DeviceAuthorizationSession, Reply, Request, RequestView, SessionRecord, Stage, StageView,
};
use crate::provider::{
    exchange_error, failure_text, is_url, not_a_url, poll_error, poll_error_code, AuthType,
    ClientSettings, ExchangeFailure, SettingsRecord,
};
use crate::text::{copy_of, text_of, texts};
use crate::token_keeper::TokenResponse;
use vstd::prelude::*;
use vstd::string::*;

verus! {

/// What a client of the device-code flow is made of.
pub struct DeviceFlowView {
    pub client_id: Seq<char>,
    pub client_secret: Option<Seq<char>>,
    pub device_auth_endpoint: Seq<char>,
    pub token_endpoint: Seq<char>,
}

impl DeviceFlowView {
    /// The settings of the client that talks to the provider: the credentials travel in the
    /// body of the request. The flow has no authorization endpoint of its own; the token
    /// endpoint stands in its place.
    pub open spec fn settings(self) -> SettingsRecord {
        SettingsRecord {
            client_id: self.client_id,
            client_secret: self.client_secret,
            auth_url: self.token_endpoint,
            token_url: self.token_endpoint,
            auth_type: AuthType::RequestBody,
            redirect_url: None,
            device_authorization_url: Some(self.device_auth_endpoint),
        }
    }

    /// How a login begins: the provider is asked for a device code.
    pub open spec fn login_model(self, scopes: Seq<Seq<char>>) -> (StageView, Option<RequestView>) {
        if self.settings().usable() {
            (StageView::DeviceCodeRequested, Some(RequestView::RequestDeviceCode(scopes)))
        } else {
            (StageView::Failed(ErrorCodes::InvalidUrl, "An endpoint is not a URL."@), None)
        }
    }

    /// One step of the flow that ends with a usable token: the cached one where it is valid or
    /// can be renewed, else one from a new login.
    ///
    /// The steps are those of [`renew_model`], but for three. Where the cache holds no record,
    /// or none that can be read as one, the provider is asked for a device code. Its answer
    /// opens a session, whose code the user is shown while the token endpoint is polled. The
    /// outcome of the polling becomes the record that is saved, or the failure that ends the
    /// flow: `Denied` where the user refused, `Expired` where the session ran out.
    pub open spec fn advance_model(
        self,
        stage: StageView,
        reply: Option<Reply>,
        now: u64,
        directory: Seq<char>,
        scopes: Seq<Seq<char>>,
    ) -> (StageView, Option<RequestView>) {
        match stage {
            StageView::Reading => match reply {
                Some(Reply::TokenRead(outcome)) => {
                    let read = read_model(outcome, now, directory);
                    if read.0 matches StageView::Failed(code, text) && (code
                        == ErrorCodes::NotFound || code == ErrorCodes::Malformed) {
                        self.login_model(scopes)
                    } else {
                        read
                    }
                },
                _ => out_of_turn(),
            },
            StageView::DeviceCodeRequested => match reply {
                Some(Reply::DeviceCodeIssued(answer)) => device_code_model(answer, now),
                _ => out_of_turn(),
            },
            StageView::Polling => match reply {
                Some(Reply::Exchanged(answer)) => polled_model(answer, now, directory),
                _ => out_of_turn(),
            },
            _ => renew_model(stage, reply, now, directory),
        }
    }
}

/// What follows the provider's authorization of the device, received at `now`: the session is
/// open, and the token endpoint is to be polled.
pub open spec fn poll_model(answer: DeviceAuthorization, now: u64) -> (
    StageView,
    Option<RequestView>,
) {
    (StageView::Polling, Some(RequestView::PollToken(SessionRecord::opened(answer, now))))
}

/// What follows the provider's answer to the request for a device code.
pub open spec fn device_code_model(
    answer: Result<DeviceAuthorization, ExchangeFailure>,
    now: u64,
) -> (StageView, Option<RequestView>) {
    match answer {
        Ok(authorization) => poll_model(authorization, now),
        Err(failure) => exchange_failed(failure),
    }
}

/// What follows the end of the polling.
pub open spec fn polled_model(
    answer: Result<TokenResponse, ExchangeFailure>,
    now: u64,
    directory: Seq<char>,
) -> (StageView, Option<RequestView>) {
    match answer {
        Ok(response) => issue_model(response, now, directory),
        Err(failure) => (StageView::Failed(poll_error_code(failure), failure_text(failure)), None),
    }
}

/// The settings of a client of the device-code flow. Fails with `InvalidUrl` exactly where an
/// endpoint is no URL.
pub fn device_client(
    client_id: &String,
    client_secret: &Option<String>,
    device_auth_endpoint: &String,
    token_endpoint: &String,
) -> (made: OAuth2Result<ClientSettings>)
    ensures
        ({
            let flow = DeviceFlowView {
                client_id: client_id@,
                client_secret: text_of(*client_secret),
                device_auth_endpoint: device_auth_endpoint@,
                token_endpoint: token_endpoint@,
            };
            match made {
                Ok(settings) => settings@ == flow.settings() && settings@.usable(),
                Err(e) => !flow.settings().usable() && e.error_code == ErrorCodes::InvalidUrl
                    && e.error_message@ == "An endpoint is not a URL."@,
            }
        }),
{
    if !is_url(token_endpoint.as_str()) || !is_url(device_auth_endpoint.as_str()) {
        return Err(not_a_url());
    }
    Ok(
        ClientSettings {
            client_id: client_id.clone(),
            client_secret: copy_of(client_secret),
            auth_url: token_endpoint.clone(),
            token_url: token_endpoint.clone(),
            auth_type: AuthType::RequestBody,
            redirect_url: None,
            device_authorization_url: Some(device_auth_endpoint.clone()),
        },
    )
}

/// How a login begins, given the client's settings or the failure to make them.
pub fn device_login(settings: OAuth2Result<ClientSettings>, scopes: Vec<String>) -> (next: (
    Stage,
    Option<Request>,
))
    ensures
        match settings {
            Ok(s) => (next.0@, asked(next.1)) == (
                StageView::DeviceCodeRequested,
                Some(RequestView::RequestDeviceCode(texts(scopes@))),
            ),
            Err(e) => (next.0@, asked(next.1)) == (
                StageView::Failed(e.error_code, e.error_message@),
                None::<RequestView>,
            ),
        },
{
    match settings {
        Ok(_) => (Stage::DeviceCodeRequested, Some(Request::RequestDeviceCode { scopes })),
        Err(e) => (Stage::Failed(e), None),
    }
}

/// What follows the provider's authorization of the device; see [`poll_model`].
pub fn poll(answer: DeviceAuthorization, now: u64) -> (next: (Stage, Option<Request>))
    ensures
        (next.0@, asked(next.1)) == poll_model(answer, now),
{
    let session = DeviceAuthorizationSession::open(answer, now);
    (Stage::Polling, Some(Request::PollToken { session }))
}

/// What follows the provider's answer to the request for a device code; see
/// [`device_code_model`].
pub fn device_code_issued(answer: Result<DeviceAuthorization, ExchangeFailure>, now: u64) -> (next:
    (Stage, Option<Request>))
    ensures
        (next.0@, asked(next.1)) == device_code_model(answer, now),
{
    match answer {
        Ok(authorization) => poll(authorization, now),
        Err(failure) => (Stage::Failed(exchange_error(failure)), None),
    }
}

/// What follows the end of the polling; see [`polled_model`].
pub fn polled(answer: Result<TokenResponse, ExchangeFailure>, now: u64, file_directory: &str) -> (next:
    (Stage, Option<Request>))
    ensures
        (next.0@, asked(next.1)) == polled_model(answer, now, file_directory@),
{
    match answer {
        Ok(response) => issue(response, now, file_directory),
        Err(failure) => (Stage::Failed(poll_error(failure)), None),
    }
}

/// Every step of the flow moves on, as every step of a renewal does.
pub proof fn lemma_device_flow_moves_on(
    flow: DeviceFlowView,
    stage: StageView,
    reply: Option<Reply>,
    now: u64,
    directory: Seq<char>,
    scopes: Seq<Seq<char>>,
)
    ensures
        moves_on(stage, flow.advance_model(stage, reply, now, directory, scopes)),
{
    lemma_renewal_moves_on(stage, reply, now, directory);
}

pub trait Cloud {
    /// How a login begins: the request for a device code.
    fn request_device_code(&self, scopes: Vec<String>) -> (Stage, Option<Request>);

    /// What follows the provider's authorization of the device: the polling.
    fn poll_access_token(&self, device_auth_response: DeviceAuthorization, now: u64) -> (
        Stage,
        Option<Request>,
    );

    /// One step towards a usable token from the cache.
    fn get_access_token(
        &self,
        file_directory: &str,
        stage: Stage,
        reply: Option<Reply>,
        now: u64,
    ) -> (Stage, Option<Request>);
}

/// An OAuth2 client that obtains tokens by the device-code flow.
#[derive(Clone, Debug, PartialEq, Eq)]
pub struct DeviceCodeFlow {
    client_id: String,
    client_secret: Option<String>,
    device_auth_endpoint: String,
    token_endpoint: String,
}

impl View for DeviceCodeFlow {
    type V = DeviceFlowView;

    closed spec fn view(&self) -> DeviceFlowView {
        DeviceFlowView {
            client_id: self.client_id@,
            client_secret: text_of(self.client_secret),
            device_auth_endpoint: self.device_auth_endpoint@,
            token_endpoint: self.token_endpoint@,
        }
    }
}

impl DeviceCodeFlow {
    pub fn new(
        client_id: String,
        client_secret: Option<String>,
        device_auth_endpoint: String,
        token_endpoint: String,
    ) -> (flow: Self)
        ensures
            flow@ == (DeviceFlowView {
                client_id: client_id@,
                client_secret: text_of(client_secret),
                device_auth_endpoint: device_auth_endpoint@,
                token_endpoint: token_endpoint@,
            }),
    {
        Self { client_id, client_secret, device_auth_endpoint, token_endpoint }
    }

    /// The settings of the client that talks to the provider. Fails with `InvalidUrl` exactly
    /// where an endpoint is no URL.
    pub fn create_client(&self) -> (made: OAuth2Result<ClientSettings>)
        ensures
            match made {
                Ok(settings) => settings@ == self@.settings() && settings@.usable(),
                Err(e) => !self@.settings().usable() && e.error_code == ErrorCodes::InvalidUrl
                    && e.error_message@ == "An endpoint is not a URL."@,
            },
    {
        device_client(
            &self.client_id,
            &self.client_secret,
            &self.device_auth_endpoint,
            &self.token_endpoint,
        )
    }

    /// One step of the flow that ends with a usable token; see
    /// [`DeviceFlowView::advance_model`].
    pub fn advance(
        &self,
        stage: Stage,
        reply: Option<Reply>,
        now: u64,
        file_directory: &str,
        scopes: Vec<String>,
    ) -> (next: (Stage, Option<Request>))
        ensures
            (next.0@, asked(next.1)) == self@.advance_model(
                stage@,
                reply,
                now,
                file_directory@,
                texts(scopes@),
            ),
    {
        match stage {
            Stage::Reading => match reply {
                Some(Reply::TokenRead(outcome)) => {
                    let read = token_read(outcome, now, file_directory);
                    let login = match &read.0 {
                        Stage::Failed(e) => e.error_code.calls_for_login(),
                        _ => false,
                    };
                    if login {
                        self.request_device_code(scopes)
                    } else {
                        read
                    }
                },
                _ => answered_out_of_turn(),
            },
            Stage::DeviceCodeRequested => match reply {
                Some(Reply::DeviceCodeIssued(answer)) => device_code_issued(answer, now),
                _ => answered_out_of_turn(),
            },
            Stage::Polling => match reply {
                Some(Reply::Exchanged(answer)) => polled(answer, now, file_directory),
                _ => answered_out_of_turn(),
            },
            _ => renew(stage, reply, now, file_directory),
        }
    }
}

impl Cloud for DeviceCodeFlow {
    fn request_device_code(&self, scopes: Vec<String>) -> (next: (Stage, Option<Request>))
        ensures
            (next.0@, asked(next.1)) == self@.login_model(texts(scopes@)),
    {
        device_login(self.create_client(), scopes)
    }

    fn poll_access_token(&self, device_auth_response: DeviceAuthorization, now: u64) -> (next: (
        Stage,
        Option<Request>,
    ))
        ensures
            (next.0@, asked(next.1)) == poll_model(device_auth_response, now),
    {
        poll(device_auth_response, now)
    }

    fn get_access_token(
        &self,
        file_directory: &str,
        stage: Stage,
        reply: Option<Reply>,
        now: u64,
    ) -> (next: (Stage, Option<Request>))
        ensures
            (next.0@, asked(next.1)) == renew_model(stage@, reply, now, file_directory@),
    {
        renew(stage, reply, now, file_directory)
    }
}

} // verus!
