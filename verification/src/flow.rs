//! The conversation between the library and its caller.
//!
//! Obtaining a token takes work that the library does not do: reading and writing the cache,
//! exchanges with the identity provider, waiting for the user. So a flow is run in steps. The
//! caller hands the library the [`Stage`] it is in and the [`Reply`] to what was asked last; the
//! library answers with the next stage and, unless the flow has ended, the next [`Request`].
//!
//! [`renew`] is the part that every flow shares: hand out the cached token while it is valid,
//! renew it with its refresh token once it has expired, and give it up where it cannot be renewed.

use crate::error::{ErrorCodes, OAuth2Error};
use crate::provider::{exchange_error, exchange_error_code, failure_text, ExchangeFailure};
use crate::text::{same_text, texts};
use crate::token_keeper::{
    granted, loaded, ReadOutcome, RemoveOutcome, StoredRecord, StoredToken, TokenKeeper,
    TokenRecord, TokenResponse, WriteOutcome,
};
use vstd::prelude::*;
use vstd::string::*;

verus! {

/// What the provider answers to a device's request for authorization.
#[derive(Clone, Debug, PartialEq, Eq)]
pub struct DeviceAuthorization {
    pub device_code: String,
    pub user_code: String,
    pub verification_uri: String,
    /// Seconds for which the codes are good.
    pub expires_in: u64,
    /// Seconds to wait between two polls.
    pub interval: u64,
}

/// One attempt of a device to get authorized: the provider's answer and when it came.
#[derive(Clone, Debug, PartialEq, Eq)]
pub struct DeviceAuthorizationSession {
    pub device_code: String,
    pub user_code: String,
    pub verification_uri: String,
    pub interval: u64,
    pub expires_in: u64,
    /// When the provider's answer was received, in seconds since the Unix epoch.
    pub requested_at: u64,
}

/// A [`DeviceAuthorizationSession`] as plain values.
pub struct SessionRecord {
    pub device_code: Seq<char>,
    pub user_code: Seq<char>,
    pub verification_uri: Seq<char>,
    pub interval: nat,
    pub expires_in: nat,
    pub requested_at: nat,
}

impl SessionRecord {
    /// The moment at which the session ends, in seconds since the Unix epoch.
    pub open spec fn expires_at(self) -> int {
        (self.requested_at + self.expires_in) as int
    }

    /// Whether the session has ended at `now`.
    pub open spec fn expired(self, now: int) -> bool {
        self.expires_at() <= now
    }

    /// The session that the provider's answer opens when it is received at `now`.
    pub open spec fn opened(answer: DeviceAuthorization, now: u64) -> SessionRecord {
        SessionRecord {
            device_code: answer.device_code@,
            user_code: answer.user_code@,
            verification_uri: answer.verification_uri@,
            interval: answer.interval as nat,
            expires_in: answer.expires_in as nat,
            requested_at: now as nat,
        }
    }
}

impl View for DeviceAuthorizationSession {
    type V = SessionRecord;

    open spec fn view(&self) -> SessionRecord {
        SessionRecord {
            device_code: self.device_code@,
            user_code: self.user_code@,
            verification_uri: self.verification_uri@,
            interval: self.interval as nat,
            expires_in: self.expires_in as nat,
            requested_at: self.requested_at as nat,
        }
    }
}

impl DeviceAuthorizationSession {
    /// The session that the provider's answer opens when it is received at `now`.
    pub fn open(answer: DeviceAuthorization, now: u64) -> (session: Self)
        ensures
            session@ == SessionRecord::opened(answer, now),
    {
        DeviceAuthorizationSession {
            device_code: answer.device_code,
            user_code: answer.user_code,
            verification_uri: answer.verification_uri,
            interval: answer.interval,
            expires_in: answer.expires_in,
            requested_at: now,
        }
    }

    /// Whether the session has ended at `now`, in seconds since the Unix epoch.
    pub fn has_expired_at(&self, now: u64) -> (expired: bool)
        ensures
            expired == self@.expired(now as int),
    {
        now >= self.requested_at && now - self.requested_at >= self.expires_in
    }

    /// What the user is to be told: where to go and which code to enter there.
    pub fn prompt(&self) -> (text: String)
        ensures
            text@ == "Open this URL in your browser:\n"@ + self@.verification_uri
                + "\nand enter the code: "@ + self@.user_code,
    {
        let mut text = String::from_str("Open this URL in your browser:\n");
        text.append(self.verification_uri.as_str());
        text.append("\nand enter the code: ");
        text.append(self.user_code.as_str());
        text
    }
}

/// The ways to obtain a token.
#[derive(Clone, Copy, Debug, PartialEq, Eq, Structural)]
pub enum OAuth2TokenGrantFlow {
    AuthorizationCodeGrant,
    DeviceCodeFlow,
}

impl OAuth2TokenGrantFlow {
    /// The flow that goes by `name`: `AuthorizationCodeGrant` or `DeviceCodeFlow`, written so.
    pub fn from_name(name: &str) -> (flow: Option<Self>)
        ensures
            name@ == "AuthorizationCodeGrant"@ ==> flow == Some(
                OAuth2TokenGrantFlow::AuthorizationCodeGrant,
            ),
            name@ == "DeviceCodeFlow"@ ==> flow == Some(OAuth2TokenGrantFlow::DeviceCodeFlow),
            name@ != "AuthorizationCodeGrant"@ && name@ != "DeviceCodeFlow"@ ==> flow is None,
    {
        proof {
            reveal_strlit("AuthorizationCodeGrant");
            reveal_strlit("DeviceCodeFlow");
            assert("AuthorizationCodeGrant"@.len() != "DeviceCodeFlow"@.len());
        }
        if same_text(name, "AuthorizationCodeGrant") {
            Some(OAuth2TokenGrantFlow::AuthorizationCodeGrant)
        } else if same_text(name, "DeviceCodeFlow") {
            Some(OAuth2TokenGrantFlow::DeviceCodeFlow)
        } else {
            None
        }
    }
}

/// Where a flow stands.
#[derive(Debug, PartialEq, Eq)]
pub enum Stage {
    /// Nothing has been asked yet.
    Start,
    /// The cached record has been asked for.
    Reading,
    /// The refresh token is being exchanged.
    Refreshing,
    /// The user has been sent to the provider; the redirect that carries the code is awaited.
    AwaitingRedirect { state: String },
    /// The authorization code is being exchanged.
    Exchanging,
    /// The provider has been asked for a device code.
    DeviceCodeRequested,
    /// The user has been shown the code; the token endpoint is being polled.
    Polling,
    /// A fresh record is being written to the cache.
    Saving(TokenKeeper),
    /// A record that cannot be renewed is being removed from the cache.
    Deleting,
    /// The flow has ended with a usable token.
    Complete(TokenKeeper),
    /// The flow has ended without one.
    Failed(OAuth2Error),
}

/// What the caller is asked to do.
#[derive(Clone, Debug, PartialEq, Eq)]
pub enum Request {
    /// Read the cache file.
    ReadToken,
    /// Exchange this refresh token at the token endpoint.
    RefreshToken { refresh_token: String },
    /// Show the user this URL and wait for the redirect that the provider sends the browser to.
    Authorize { url: String, state: String },
    /// Exchange this authorization code at the token endpoint.
    ExchangeCode { code: String },
    /// Ask the provider for a device code with these scopes.
    RequestDeviceCode { scopes: Vec<String> },
    /// Show the user the code of this session and poll the token endpoint until it is decided.
    PollToken { session: DeviceAuthorizationSession },
    /// Write this to the cache file.
    SaveToken(StoredToken),
    /// Remove the cache file.
    DeleteToken,
}

/// What the caller answers.
#[derive(Debug, PartialEq, Eq)]
pub enum Reply {
    /// To `ReadToken`.
    TokenRead(ReadOutcome),
    /// To `RefreshToken`, `ExchangeCode` and `PollToken`.
    Exchanged(Result<TokenResponse, ExchangeFailure>),
    /// To `Authorize`: the first line of the request that the redirect made, or why none was
    /// captured.
    Redirected(Result<String, String>),
    /// To `RequestDeviceCode`.
    DeviceCodeIssued(Result<DeviceAuthorization, ExchangeFailure>),
    /// To `SaveToken`.
    TokenSaved(WriteOutcome),
    /// To `DeleteToken`.
    TokenDeleted(RemoveOutcome),
}

/// A [`Stage`] as plain values.
pub enum StageView {
    Start,
    Reading,
    Refreshing,
    AwaitingRedirect(Seq<char>),
    Exchanging,
    DeviceCodeRequested,
    Polling,
    Saving(TokenRecord),
    Deleting,
    Complete(TokenRecord),
    Failed(ErrorCodes, Seq<char>),
}

/// A [`Request`] as plain values.
pub enum RequestView {
    ReadToken,
    RefreshToken(Seq<char>),
    Authorize(Seq<char>, Seq<char>),
    ExchangeCode(Seq<char>),
    RequestDeviceCode(Seq<Seq<char>>),
    PollToken(SessionRecord),
    SaveToken(StoredRecord),
    DeleteToken,
}

impl View for Stage {
    type V = StageView;

    open spec fn view(&self) -> StageView {
        match *self {
            Stage::Start => StageView::Start,
            Stage::Reading => StageView::Reading,
            Stage::Refreshing => StageView::Refreshing,
            Stage::AwaitingRedirect { state } => StageView::AwaitingRedirect(state@),
            Stage::Exchanging => StageView::Exchanging,
            Stage::DeviceCodeRequested => StageView::DeviceCodeRequested,
            Stage::Polling => StageView::Polling,
            Stage::Saving(keeper) => StageView::Saving(keeper@),
            Stage::Deleting => StageView::Deleting,
            Stage::Complete(keeper) => StageView::Complete(keeper@),
            Stage::Failed(e) => StageView::Failed(e.error_code, e.error_message@),
        }
    }
}

impl View for Request {
    type V = RequestView;

    open spec fn view(&self) -> RequestView {
        match *self {
            Request::ReadToken => RequestView::ReadToken,
            Request::RefreshToken { refresh_token } => RequestView::RefreshToken(refresh_token@),
            Request::Authorize { url, state } => RequestView::Authorize(url@, state@),
            Request::ExchangeCode { code } => RequestView::ExchangeCode(code@),
            Request::RequestDeviceCode { scopes } => RequestView::RequestDeviceCode(
                texts(scopes@),
            ),
            Request::PollToken { session } => RequestView::PollToken(session@),
            Request::SaveToken(stored) => RequestView::SaveToken(stored@),
            Request::DeleteToken => RequestView::DeleteToken,
        }
    }
}

/// What a request that may be absent holds.
pub open spec fn asked(request: Option<Request>) -> Option<RequestView> {
    match request {
        Some(r) => Some(r@),
        None => None,
    }
}

impl StageView {
    /// Whether the flow has ended.
    pub open spec fn ended(self) -> bool {
        self is Complete || self is Failed
    }

    /// How many steps a flow in this stage can take at most before it has ended.
    pub open spec fn steps_left(self) -> nat {
        match self {
            StageView::Start => 5,
            StageView::Reading => 4,
            StageView::Refreshing => 3,
            StageView::AwaitingRedirect(state) => 3,
            StageView::DeviceCodeRequested => 3,
            StageView::Exchanging => 2,
            StageView::Polling => 2,
            StageView::Saving(record) => 1,
            StageView::Deleting => 1,
            StageView::Complete(record) => 0,
            StageView::Failed(code, text) => 0,
        }
    }

    /// Whether the record that the stage holds, if it holds one, has an access token.
    pub open spec fn sound(self) -> bool {
        match self {
            StageView::Saving(record) => record.valid(),
            StageView::Complete(record) => record.valid(),
            _ => true,
        }
    }
}

/// Whether a step is one that a flow may take from `stage`: it asks for something exactly
/// where it does not end the flow, it leaves fewer steps to take, a record that it holds or
/// asks to save has an access token, and a flow that has ended stays as it is.
pub open spec fn moves_on(stage: StageView, next: (StageView, Option<RequestView>)) -> bool {
    &&& next.1 is None <==> next.0.ended()
    &&& !stage.ended() ==> next.0.steps_left() < stage.steps_left()
    &&& stage.ended() ==> next.0 == stage
    &&& stage.sound() ==> next.0.sound()
    &&& next.1 matches Some(RequestView::SaveToken(stored)) ==> stored.access_token.len() > 0
}

/// The stage of a flow that was answered something it had not asked for.
pub open spec fn out_of_turn() -> (StageView, Option<RequestView>) {
    (
        StageView::Failed(ErrorCodes::OutOfTurn, "The answer does not fit what was asked."@),
        None,
    )
}

/// The stage that a failed exchange of a code or of a refresh token leaves the flow in.
pub open spec fn exchange_failed(failure: ExchangeFailure) -> (StageView, Option<RequestView>) {
    (StageView::Failed(exchange_error_code(failure), failure_text(failure)), None)
}

/// What follows the provider's answer to an exchange, received at `now`: a response with an
/// access token becomes a record for `directory` that is to be saved.
pub open spec fn issue_model(response: TokenResponse, now: u64, directory: Seq<char>) -> (
    StageView,
    Option<RequestView>,
) {
    match granted(response, now, directory) {
        Ok(record) => (StageView::Saving(record), Some(RequestView::SaveToken(record.stored()))),
        Err(failure) => (StageView::Failed(failure.0, failure.1), None),
    }
}

/// What follows the reading of the cache at `now`.
pub open spec fn read_model(outcome: ReadOutcome, now: u64, directory: Seq<char>) -> (
    StageView,
    Option<RequestView>,
) {
    match loaded(outcome, directory) {
        Ok(record) => if !record.expired(now as int) {
            (StageView::Complete(record), None)
        } else {
            match record.refresh_token {
                Some(token) => (StageView::Refreshing, Some(RequestView::RefreshToken(token))),
                None => (StageView::Deleting, Some(RequestView::DeleteToken)),
            }
        },
        Err(failure) => (StageView::Failed(failure.0, failure.1), None),
    }
}

/// What follows the writing of `record` to the cache.
pub open spec fn saved_model(record: TokenRecord, outcome: WriteOutcome) -> (
    StageView,
    Option<RequestView>,
) {
    match outcome {
        WriteOutcome::Written => (StageView::Complete(record), None),
        WriteOutcome::Failed(why) => (StageView::Failed(ErrorCodes::IoError, why@), None),
    }
}

/// What follows the removal of a record that could not be renewed.
pub open spec fn deleted_model(outcome: RemoveOutcome) -> (StageView, Option<RequestView>) {
    match outcome {
        RemoveOutcome::Failed(why) => (StageView::Failed(ErrorCodes::IoError, why@), None),
        _ => (
            StageView::Failed(ErrorCodes::NoRefreshToken, "There is no refresh token."@),
            None,
        ),
    }
}

/// One step of the renewal of a cached token: the stage and the request that follow when a flow
/// in `stage` is answered `reply` at `now`.
///
/// From `Start` the cache is read. A record that is still valid ends the flow. An expired one
/// with a refresh token is renewed at the provider and the new record saved; an expired one
/// without is removed, and the flow fails with `NoRefreshToken`. Whatever fails on the way ends
/// the flow with that failure, and so does an answer to what was not asked. A flow that has
/// ended stays as it is.
pub open spec fn renew_model(
    stage: StageView,
    reply: Option<Reply>,
    now: u64,
    directory: Seq<char>,
) -> (StageView, Option<RequestView>) {
    match stage {
        StageView::Start => (StageView::Reading, Some(RequestView::ReadToken)),
        StageView::Reading => match reply {
            Some(Reply::TokenRead(outcome)) => read_model(outcome, now, directory),
            _ => out_of_turn(),
        },
        StageView::Refreshing => match reply {
            Some(Reply::Exchanged(Ok(response))) => issue_model(response, now, directory),
            Some(Reply::Exchanged(Err(failure))) => exchange_failed(failure),
            _ => out_of_turn(),
        },
        StageView::Saving(record) => match reply {
            Some(Reply::TokenSaved(outcome)) => saved_model(record, outcome),
            _ => out_of_turn(),
        },
        StageView::Deleting => match reply {
            Some(Reply::TokenDeleted(outcome)) => deleted_model(outcome),
            _ => out_of_turn(),
        },
        StageView::Complete(record) => (stage, None),
        StageView::Failed(code, text) => (stage, None),
        _ => out_of_turn(),
    }
}

/// The end of a flow that was answered something it had not asked for.
pub fn answered_out_of_turn() -> (next: (Stage, Option<Request>))
    ensures
        (next.0@, asked(next.1)) == out_of_turn(),
{
    (
        Stage::Failed(
            OAuth2Error::with_text(
                ErrorCodes::OutOfTurn,
                "The answer does not fit what was asked.",
            ),
        ),
        None,
    )
}

/// What follows the provider's answer to an exchange, received at `now`.
pub fn issue(response: TokenResponse, now: u64, file_directory: &str) -> (next: (
    Stage,
    Option<Request>,
))
    ensures
        (next.0@, asked(next.1)) == issue_model(response, now, file_directory@),
{
    match TokenKeeper::from_response(response, now, String::from_str(file_directory)) {
        Ok(keeper) => {
            let stored = keeper.to_stored();
            (Stage::Saving(keeper), Some(Request::SaveToken(stored)))
        },
        Err(e) => (Stage::Failed(e), None),
    }
}

/// What follows the reading of the cache at `now`.
pub fn token_read(outcome: ReadOutcome, now: u64, file_directory: &str) -> (next: (
    Stage,
    Option<Request>,
))
    ensures
        (next.0@, asked(next.1)) == read_model(outcome, now, file_directory@),
{
    match TokenKeeper::read(outcome, String::from_str(file_directory)) {
        Ok(keeper) => {
            if !keeper.has_expired_at(now) {
                (Stage::Complete(keeper), None)
            } else {
                match keeper.refresh_token() {
                    Some(token) => {
                        let refresh_token = token.clone();
                        (Stage::Refreshing, Some(Request::RefreshToken { refresh_token }))
                    },
                    None => (Stage::Deleting, Some(Request::DeleteToken)),
                }
            }
        },
        Err(e) => (Stage::Failed(e), None),
    }
}

/// What follows the writing of `keeper` to the cache.
pub fn token_saved(keeper: TokenKeeper, outcome: WriteOutcome) -> (next: (Stage, Option<Request>))
    ensures
        (next.0@, asked(next.1)) == saved_model(keeper@, outcome),
{
    match keeper.save(outcome) {
        Ok(()) => (Stage::Complete(keeper), None),
        Err(e) => (Stage::Failed(e), None),
    }
}

/// What follows the removal of a record that could not be renewed.
pub fn token_deleted(outcome: RemoveOutcome) -> (next: (Stage, Option<Request>))
    ensures
        (next.0@, asked(next.1)) == deleted_model(outcome),
{
    match TokenKeeper::delete(outcome) {
        Ok(()) => (
            Stage::Failed(
                OAuth2Error::with_text(ErrorCodes::NoRefreshToken, "There is no refresh token."),
            ),
            None,
        ),
        Err(e) => (Stage::Failed(e), None),
    }
}

/// One step of the renewal of a cached token; see [`renew_model`].
pub fn renew(stage: Stage, reply: Option<Reply>, now: u64, file_directory: &str) -> (next: (
    Stage,
    Option<Request>,
))
    ensures
        (next.0@, asked(next.1)) == renew_model(stage@, reply, now, file_directory@),
{
    match stage {
        Stage::Start => (Stage::Reading, Some(Request::ReadToken)),
        Stage::Reading => match reply {
            Some(Reply::TokenRead(outcome)) => token_read(outcome, now, file_directory),
            _ => answered_out_of_turn(),
        },
        Stage::Refreshing => match reply {
            Some(Reply::Exchanged(Ok(response))) => issue(response, now, file_directory),
            Some(Reply::Exchanged(Err(failure))) => (Stage::Failed(exchange_error(failure)), None),
            _ => answered_out_of_turn(),
        },
        Stage::Saving(keeper) => match reply {
            Some(Reply::TokenSaved(outcome)) => token_saved(keeper, outcome),
            _ => answered_out_of_turn(),
        },
        Stage::Deleting => match reply {
            Some(Reply::TokenDeleted(outcome)) => token_deleted(outcome),
            _ => answered_out_of_turn(),
        },
        Stage::Complete(keeper) => (Stage::Complete(keeper), None),
        Stage::Failed(e) => (Stage::Failed(e), None),
        _ => answered_out_of_turn(),
    }
}

/// Every step of a renewal moves on: the caller that acts on each request and stops when none
/// is made has stopped after five steps at most, with a flow that has ended; and no record
/// without an access token is ever handed out or asked to be saved.
pub proof fn lemma_renewal_moves_on(
    stage: StageView,
    reply: Option<Reply>,
    now: u64,
    directory: Seq<char>,
)
    ensures
        moves_on(stage, renew_model(stage, reply, now, directory)),
{
}

/// What a cache holds once it has done what was asked of it: what it was given to save, nothing
/// once it was told to delete, and otherwise what it held before.
pub open spec fn kept(cache: Option<StoredRecord>, request: RequestView) -> Option<StoredRecord> {
    match request {
        RequestView::SaveToken(stored) => Some(stored),
        RequestView::DeleteToken => None,
        _ => cache,
    }
}

/// Whether `reply` is what a cache that holds `cache` answers when it is read.
pub open spec fn read_from(cache: Option<StoredRecord>, reply: Reply) -> bool {
    match cache {
        Some(stored) => reply matches Reply::TokenRead(ReadOutcome::Found(file)) && file@
            == stored,
        None => reply matches Reply::TokenRead(ReadOutcome::Missing),
    }
}

/// A record that was saved reads back as it was: from a cache that did what it was asked, the
/// next reading in the same directory gives the record with the same access token, refresh
/// token and expiry, whatever the cache held before.
pub proof fn lemma_saved_record_reads_back(
    before: Option<StoredRecord>,
    record: TokenRecord,
    reply: Reply,
)
    requires
        record.valid(),
        read_from(kept(before, RequestView::SaveToken(record.stored())), reply),
    ensures
        reply matches Reply::TokenRead(outcome) && loaded(outcome, record.directory) == Ok::<
            TokenRecord,
            (ErrorCodes, Seq<char>),
        >(record),
{
}

/// A record that was deleted is gone: from a cache that did what it was asked, the next reading
/// fails with `NotFound`, whether the cache held a record before or not.
pub proof fn lemma_deleted_record_is_not_found(
    before: Option<StoredRecord>,
    reply: Reply,
    directory: Seq<char>,
)
    requires
        read_from(kept(before, RequestView::DeleteToken), reply),
    ensures
        reply matches Reply::TokenRead(outcome) && loaded(outcome, directory) == Err::<
            TokenRecord,
            (ErrorCodes, Seq<char>),
        >((ErrorCodes::NotFound, "No token is cached."@)),
{
}

/// The requests that a renewal makes, in their order, when it starts in `stage` and is then
/// answered the replies of `events`, each at its own moment; and the stage it is left in.
pub open spec fn renew_run(
    stage: StageView,
    events: Seq<(Option<Reply>, u64)>,
    directory: Seq<char>,
) -> (StageView, Seq<RequestView>)
    decreases events.len(),
{
    if events.len() == 0 {
        (stage, Seq::empty())
    } else {
        let step = renew_model(stage, events[0].0, events[0].1, directory);
        let rest = renew_run(step.0, events.drop_first(), directory);
        match step.1 {
            Some(request) => (rest.0, seq![request] + rest.1),
            None => rest,
        }
    }
}

/// How many of the requests ask for an exchange of a refresh token.
pub open spec fn refreshes(requests: Seq<RequestView>) -> nat
    decreases requests.len(),
{
    if requests.len() == 0 {
        0
    } else if requests[0] is RefreshToken {
        1 + refreshes(requests.drop_first())
    } else {
        refreshes(requests.drop_first())
    }
}

/// How many of the requests the provider gets to see: exchanges of a refresh token or of a
/// code, requests for a device code, and polls.
pub open spec fn exchanges(requests: Seq<RequestView>) -> nat
    decreases requests.len(),
{
    if requests.len() == 0 {
        0
    } else if requests[0] is RefreshToken || requests[0] is ExchangeCode
        || requests[0] is RequestDeviceCode || requests[0] is PollToken {
        1 + exchanges(requests.drop_first())
    } else {
        exchanges(requests.drop_first())
    }
}

proof fn lemma_refreshes_after(stage: StageView, events: Seq<(Option<Reply>, u64)>, directory: Seq<char>)
    ensures
        refreshes(renew_run(stage, events, directory).1) <= (if stage is Start || stage
            is Reading {
            1nat
        } else {
            0nat
        }),
        exchanges(renew_run(stage, events, directory).1) == refreshes(
            renew_run(stage, events, directory).1,
        ),
    decreases events.len(),
{
    if events.len() > 0 {
        let step = renew_model(stage, events[0].0, events[0].1, directory);
        let rest = renew_run(step.0, events.drop_first(), directory);
        lemma_refreshes_after(step.0, events.drop_first(), directory);
        match step.1 {
            Some(request) => {
                assert((seq![request] + rest.1).drop_first() =~= rest.1);
            },
            None => {},
        }
    }
}

/// Whatever the caller answers, and whenever, one renewal asks the provider for at most one
/// exchange of a refresh token, and for nothing else.
pub proof fn lemma_renewal_refreshes_at_most_once(
    events: Seq<(Option<Reply>, u64)>,
    directory: Seq<char>,
)
    ensures
        refreshes(renew_run(StageView::Start, events, directory).1) <= 1,
        exchanges(renew_run(StageView::Start, events, directory).1) <= 1,
{
    lemma_refreshes_after(StageView::Start, events, directory);
}

/// A flow that has ended asks for nothing more and stays as it ended, whatever it is answered.
pub proof fn lemma_ended_flow_stays(
    stage: StageView,
    events: Seq<(Option<Reply>, u64)>,
    directory: Seq<char>,
)
    requires
        stage.ended(),
    ensures
        renew_run(stage, events, directory) == (stage, Seq::<RequestView>::empty()),
    decreases events.len(),
{
    if events.len() > 0 {
        lemma_ended_flow_stays(stage, events.drop_first(), directory);
    }
}

/// A cached token that has not expired is handed out as it is: once the cache has been read the
/// flow is complete, and no request goes to the provider, however often this is done and
/// whatever is answered afterwards.
pub proof fn lemma_valid_token_needs_no_exchange(
    stored: StoredToken,
    started: u64,
    now: u64,
    directory: Seq<char>,
    afterwards: Seq<(Option<Reply>, u64)>,
)
    requires
        stored@.at(directory).valid(),
        !stored@.at(directory).expired(now as int),
    ensures
        renew_run(
            StageView::Start,
            seq![(None, started), (Some(Reply::TokenRead(ReadOutcome::Found(stored))), now)]
                + afterwards,
            directory,
        ) == (StageView::Complete(stored@.at(directory)), seq![RequestView::ReadToken]),
        exchanges(seq![RequestView::ReadToken]) == 0,
{
    let read = (Some(Reply::TokenRead(ReadOutcome::Found(stored))), now);
    let events = seq![(None, started), read] + afterwards;
    let record = stored@.at(directory);
    assert(events.drop_first() =~= seq![read] + afterwards);
    assert(events.drop_first().drop_first() =~= afterwards);
    lemma_ended_flow_stays(StageView::Complete(record), afterwards, directory);
    assert(renew_run(StageView::Reading, events.drop_first(), directory) == (
        StageView::Complete(record),
        Seq::<RequestView>::empty(),
    )) by {
        reveal_with_fuel(renew_run, 2);
    }
    assert(seq![RequestView::ReadToken] + Seq::<RequestView>::empty() =~= seq![
        RequestView::ReadToken,
    ]);
    assert(exchanges(seq![RequestView::ReadToken]) == 0) by {
        reveal_with_fuel(exchanges, 2);
    }
}

/// The cache hands out no token that has run out: a renewal that completes on reading the
/// cache completes with a record that holds an access token and has not expired at that moment.
pub proof fn lemma_only_valid_tokens_are_handed_out(
    outcome: ReadOutcome,
    now: u64,
    directory: Seq<char>,
)
    ensures
        renew_model(StageView::Reading, Some(Reply::TokenRead(outcome)), now, directory).0
            matches StageView::Complete(record) ==> record.valid() && !record.expired(now as int),
{
}

/// An expired token with a refresh token is renewed by one exchange: the cache is read, the
/// refresh token goes to the provider, the record made of the answer is saved, and the flow
/// completes with it. The new record holds the access token of the answer. Its expiry lies
/// after the old one where the answer declares a lifetime above zero and did not arrive before
/// the old record was read.
pub proof fn lemma_expired_token_is_renewed(
    stored: StoredToken,
    response: TokenResponse,
    read_at: u64,
    answered_at: u64,
    saved_at: u64,
    directory: Seq<char>,
)
    requires
        stored@.at(directory).valid(),
        stored@.at(directory).expired(read_at as int),
        stored@.refresh_token is Some,
        response.access_token@.len() > 0,
    ensures
        ({
            let old = stored@.at(directory);
            let new = TokenRecord::issued(response, answered_at, directory);
            let read = renew_model(
                StageView::Reading,
                Some(Reply::TokenRead(ReadOutcome::Found(stored))),
                read_at,
                directory,
            );
            let answered = renew_model(
                read.0,
                Some(Reply::Exchanged(Ok(response))),
                answered_at,
                directory,
            );
            let saved = renew_model(
                answered.0,
                Some(Reply::TokenSaved(WriteOutcome::Written)),
                saved_at,
                directory,
            );
            &&& read == (
                StageView::Refreshing,
                Some(RequestView::RefreshToken(stored@.refresh_token->0)),
            )
            &&& answered == (StageView::Saving(new), Some(RequestView::SaveToken(new.stored())))
            &&& saved == (StageView::Complete(new), None::<RequestView>)
            &&& new.access_token == response.access_token@
            &&& (response.expires_in matches Some(seconds) && seconds > 0 && read_at
                <= answered_at) ==> new.expires_at() > old.expires_at()
        }),
{
}

/// An expired token without a refresh token is given up: the cache is read, the record is
/// removed, and the flow fails with `NoRefreshToken`, whether the file was still there or not.
/// A cache that is read after that, and found empty, fails the flow with `NotFound`.
pub proof fn lemma_unrenewable_token_is_given_up(
    stored: StoredToken,
    removed: RemoveOutcome,
    read_at: u64,
    removed_at: u64,
    read_again_at: u64,
    directory: Seq<char>,
)
    requires
        stored@.at(directory).valid(),
        stored@.at(directory).expired(read_at as int),
        stored@.refresh_token is None,
        !(removed is Failed),
    ensures
        ({
            let read = renew_model(
                StageView::Reading,
                Some(Reply::TokenRead(ReadOutcome::Found(stored))),
                read_at,
                directory,
            );
            let deleted = renew_model(
                read.0,
                Some(Reply::TokenDeleted(removed)),
                removed_at,
                directory,
            );
            let again = renew_model(
                StageView::Reading,
                Some(Reply::TokenRead(ReadOutcome::Missing)),
                read_again_at,
                directory,
            );
            &&& read == (StageView::Deleting, Some(RequestView::DeleteToken))
            &&& deleted.0 == StageView::Failed(
                ErrorCodes::NoRefreshToken,
                "There is no refresh token."@,
            )
            &&& deleted.1 is None
            &&& again.0 == StageView::Failed(ErrorCodes::NotFound, "No token is cached."@)
            &&& again.1 is None
        }),
{
}

} // verus!
