//! The authorization-code grant: the user authorizes in a browser, the provider redirects the
//! browser to a listener on this machine, and the code that the redirect carries is exchanged
//! for a token.

use crate::error::{ErrorCodes, OAuth2Error, OAuth2Result};
use crate::flow::{
    answered_out_of_turn, asked, exchange_failed, issue, issue_model, lemma_renewal_moves_on,
    moves_on, out_of_turn, read_model, renew, renew_model, token_read, Reply, Request,
    RequestView, Stage, StageView,
};
use crate::provider::{
    authorization_url, authorization_url_of, exchange_error, is_url, not_a_url, query_pairs,
    query_pairs_of, random_state, url_accepted, AuthType, ClientSettings, ExchangeFailure,
    SettingsRecord, STATE_LENGTH,
};
use crate::text::{copy_of, same_text, text_of, text_pairs, texts};
use crate::token_keeper::TokenResponse;
use vstd::prelude::*;
use vstd::string::*;

verus! {

/// Where the provider sends the browser once the user has decided. The listener that captures
/// the redirect binds to this address.
pub const REDIRECT_URI: &'static str = "http://localhost:8080";

/// Whether a character separates the words of a request line.
pub open spec fn is_space(c: char) -> bool {
    c == ' ' || c == '\t' || c == '\r' || c == '\n'
}

/// The first position from `from` on that holds no space, or the length of the line.
pub open spec fn after_spaces(line: Seq<char>, from: int) -> int
    decreases line.len() - from,
{
    if 0 <= from < line.len() && is_space(line[from]) {
        after_spaces(line, from + 1)
    } else {
        from
    }
}

/// The first position from `from` on that holds a space, or the length of the line.
pub open spec fn after_word(line: Seq<char>, from: int) -> int
    decreases line.len() - from,
{
    if 0 <= from < line.len() && !is_space(line[from]) {
        after_word(line, from + 1)
    } else {
        from
    }
}

/// The second word of a request line: what the request asks for. None where the line has fewer
/// than two words.
pub open spec fn target_of(line: Seq<char>) -> Option<Seq<char>> {
    let method = after_spaces(line, 0);
    let start = after_spaces(line, after_word(line, method));
    if start < line.len() {
        Some(line.subrange(start, after_word(line, start)))
    } else {
        None
    }
}

/// The value of the first pair that goes by the name `key`.
pub open spec fn first_value(pairs: Seq<(Seq<char>, Seq<char>)>, key: Seq<char>) -> Option<
    Seq<char>,
>
    decreases pairs.len(),
{
    if pairs.len() == 0 {
        None
    } else if pairs[0].0 == key {
        Some(pairs[0].1)
    } else {
        first_value(pairs.drop_first(), key)
    }
}

/// What a redirect carries: the authorization code and, where there is one, the state. The
/// parameters are those of the query of the request's target, read as a URL below the redirect
/// URI. None where the line names no target, the target gives no URL, or its query has no code.
pub open spec fn redirect_of(line: Seq<char>) -> Option<(Seq<char>, Option<Seq<char>>)> {
    match target_of(line) {
        Some(target) => match query_pairs_of(REDIRECT_URI@ + target) {
            Some(pairs) => match first_value(pairs, "code"@) {
                Some(code) => Some((code, first_value(pairs, "state"@))),
                None => None,
            },
            None => None,
        },
        None => None,
    }
}

/// What the provider's redirect carried.
#[derive(Clone, Debug, PartialEq, Eq)]
pub struct Redirect {
    /// The authorization code, as it came.
    pub code: String,
    /// The state that the provider handed back. It is not held against the one that was sent.
    pub state: Option<String>,
}

fn space(c: char) -> (yes: bool)
    ensures
        yes == is_space(c),
{
    c == ' ' || c == '\t' || c == '\r' || c == '\n'
}

fn skip_spaces(line: &str, length: usize, from: usize) -> (at: usize)
    requires
        length == line@.len(),
        from <= length,
    ensures
        at == after_spaces(line@, from as int),
        from <= at <= length,
{
    let mut i: usize = from;
    while i < length
        invariant
            length == line@.len(),
            from <= i <= length,
            after_spaces(line@, from as int) == after_spaces(line@, i as int),
        decreases length - i,
    {
        if !space(line.get_char(i)) {
            return i;
        }
        i += 1;
    }
    i
}

fn skip_word(line: &str, length: usize, from: usize) -> (at: usize)
    requires
        length == line@.len(),
        from <= length,
    ensures
        at == after_word(line@, from as int),
        from <= at <= length,
{
    let mut i: usize = from;
    while i < length
        invariant
            length == line@.len(),
            from <= i <= length,
            after_word(line@, from as int) == after_word(line@, i as int),
        decreases length - i,
    {
        if space(line.get_char(i)) {
            return i;
        }
        i += 1;
    }
    i
}

/// The second word of a request line; see [`target_of`].
pub fn request_target(line: &str) -> (target: Option<String>)
    ensures
        text_of(target) == target_of(line@),
{
    let length = line.unicode_len();
    let method = skip_spaces(line, length, 0);
    let gap = skip_word(line, length, method);
    let start = skip_spaces(line, length, gap);
    if start >= length {
        return None;
    }
    let end = skip_word(line, length, start);
    Some(String::from_str(line.substring_char(start, end)))
}

/// The value of the first pair that goes by the name `key`; see [`first_value`].
pub fn value_of(pairs: &Vec<(String, String)>, key: &str) -> (value: Option<String>)
    ensures
        text_of(value) == first_value(text_pairs(pairs@), key@),
{
    let mut i: usize = 0;
    assert(text_pairs(pairs@).skip(0) =~= text_pairs(pairs@));
    while i < pairs.len()
        invariant
            i <= pairs.len(),
            first_value(text_pairs(pairs@), key@) == first_value(
                text_pairs(pairs@).skip(i as int),
                key@,
            ),
        decreases pairs.len() - i,
    {
        let ghost rest = text_pairs(pairs@).skip(i as int);
        assert(rest.len() > 0 && rest[0] == (pairs@[i as int].0@, pairs@[i as int].1@));
        if same_text(pairs[i].0.as_str(), key) {
            return Some(pairs[i].1.clone());
        }
        assert(rest.drop_first() =~= text_pairs(pairs@).skip(i + 1));
        i += 1;
    }
    None
}

/// The failure to report for a redirect that carries no authorization code.
fn no_code() -> (e: OAuth2Error)
    ensures
        e.error_code == ErrorCodes::InvalidRedirect,
        e.error_message@ == "The redirect carries no authorization code."@,
{
    OAuth2Error::with_text(
        ErrorCodes::InvalidRedirect,
        "The redirect carries no authorization code.",
    )
}

/// Reads the code and the state out of the first line of the request that the redirect made.
/// Fails with `InvalidRedirect` exactly where [`redirect_of`] finds no code.
pub fn capture_redirect(request_line: &str) -> (captured: OAuth2Result<Redirect>)
    ensures
        match captured {
            Ok(redirect) => redirect_of(request_line@) == Some(
                (redirect.code@, text_of(redirect.state)),
            ),
            Err(e) => redirect_of(request_line@) is None && e.error_code
                == ErrorCodes::InvalidRedirect && e.error_message@
                == "The redirect carries no authorization code."@,
        },
{
    let target = match request_target(request_line) {
        Some(target) => target,
        None => { return Err(no_code()); },
    };
    let url = String::from_str(REDIRECT_URI).concat(target.as_str());
    let pairs = match query_pairs(url.as_str()) {
        Some(pairs) => pairs,
        None => { return Err(no_code()); },
    };
    match value_of(&pairs, "code") {
        Some(code) => Ok(Redirect { code, state: value_of(&pairs, "state") }),
        None => Err(no_code()),
    }
}

/// An OAuth2 client that obtains tokens by the authorization-code grant.
#[derive(Clone, Debug, PartialEq, Eq)]
pub struct AuthCodeGrant {
    client_id: String,
    client_secret: Option<String>,
    auth_endpoint: String,
    token_endpoint: String,
}

/// What an [`AuthCodeGrant`] is made of.
pub struct AuthCodeGrantView {
    pub client_id: Seq<char>,
    pub client_secret: Option<Seq<char>>,
    pub auth_endpoint: Seq<char>,
    pub token_endpoint: Seq<char>,
}

impl AuthCodeGrantView {
    /// The settings of the client that talks to the provider: the credentials travel in the
    /// body of the request, and the provider is to redirect to [`REDIRECT_URI`].
    pub open spec fn settings(self) -> SettingsRecord {
        SettingsRecord {
            client_id: self.client_id,
            client_secret: self.client_secret,
            auth_url: self.auth_endpoint,
            token_url: self.token_endpoint,
            auth_type: AuthType::RequestBody,
            redirect_url: Some(REDIRECT_URI@),
            device_authorization_url: None,
        }
    }

    /// The URL to send the user to, for these scopes and this state.
    pub open spec fn authorization_url(self, scopes: Seq<Seq<char>>, state: Seq<char>) -> Option<
        Seq<char>,
    > {
        authorization_url_of(self.auth_endpoint, self.client_id, REDIRECT_URI@, scopes, state)
    }

    /// How a login begins: the user is sent to the authorization URL, and the redirect awaited.
    /// With an endpoint that is no URL there is no login.
    pub open spec fn login_model(self, scopes: Seq<Seq<char>>, state: Seq<char>) -> (
        StageView,
        Option<RequestView>,
    ) {
        match self.authorization_url(scopes, state) {
            Some(url) if self.settings().usable() => (
                StageView::AwaitingRedirect(state),
                Some(RequestView::Authorize(url, state)),
            ),
            _ => (StageView::Failed(ErrorCodes::InvalidUrl, "An endpoint is not a URL."@), None),
        }
    }

    /// One step of the flow that ends with a usable token: the cached one where it is valid or
    /// can be renewed, else one from a new login.
    ///
    /// The steps are those of [`renew_model`], but for three. Where the cache holds no record,
    /// or none that can be read as one, the user is sent to the provider with `state` as the
    /// anti-forgery state, and the redirect awaited. The redirect's request line gives the
    /// code, which goes to the token endpoint; a redirect that could not be captured fails the
    /// flow with `IoError`. The answer to the exchange becomes the record that is saved.
    pub open spec fn advance_model(
        self,
        stage: StageView,
        reply: Option<Reply>,
        now: u64,
        directory: Seq<char>,
        scopes: Seq<Seq<char>>,
        state: Seq<char>,
    ) -> (StageView, Option<RequestView>) {
        match stage {
            StageView::Reading => match reply {
                Some(Reply::TokenRead(outcome)) => {
                    let read = read_model(outcome, now, directory);
                    if read.0 matches StageView::Failed(code, text) && (code
                        == ErrorCodes::NotFound || code == ErrorCodes::Malformed) {
                        self.login_model(scopes, state)
                    } else {
                        read
                    }
                },
                _ => out_of_turn(),
            },
            StageView::AwaitingRedirect(sent) => match reply {
                Some(Reply::Redirected(Ok(line))) => redirected_model(line@),
                Some(Reply::Redirected(Err(why))) => (
                    StageView::Failed(ErrorCodes::IoError, why@),
                    None,
                ),
                _ => out_of_turn(),
            },
            StageView::Exchanging => match reply {
                Some(Reply::Exchanged(answer)) => exchanged_model(answer, now, directory),
                _ => out_of_turn(),
            },
            _ => renew_model(stage, reply, now, directory),
        }
    }
}

/// What follows the redirect: the code that it carries goes to the token endpoint.
pub open spec fn redirected_model(line: Seq<char>) -> (StageView, Option<RequestView>) {
    match redirect_of(line) {
        Some(redirect) => (StageView::Exchanging, Some(RequestView::ExchangeCode(redirect.0))),
        None => (
            StageView::Failed(
                ErrorCodes::InvalidRedirect,
                "The redirect carries no authorization code."@,
            ),
            None,
        ),
    }
}

/// What follows the provider's answer to the exchange of a code or of a refresh token.
pub open spec fn exchanged_model(
    answer: Result<TokenResponse, ExchangeFailure>,
    now: u64,
    directory: Seq<char>,
) -> (StageView, Option<RequestView>) {
    match answer {
        Ok(response) => issue_model(response, now, directory),
        Err(failure) => exchange_failed(failure),
    }
}

/// What follows the redirect; see [`redirected_model`].
pub fn redirected(request_line: &str) -> (next: (Stage, Option<Request>))
    ensures
        (next.0@, asked(next.1)) == redirected_model(request_line@),
{
    match capture_redirect(request_line) {
        Ok(redirect) => (Stage::Exchanging, Some(Request::ExchangeCode { code: redirect.code })),
        Err(e) => (Stage::Failed(e), None),
    }
}

/// What follows the provider's answer to an exchange; see [`exchanged_model`].
pub fn exchanged(
    answer: Result<TokenResponse, ExchangeFailure>,
    now: u64,
    file_directory: &str,
) -> (next: (Stage, Option<Request>))
    ensures
        (next.0@, asked(next.1)) == exchanged_model(answer, now, file_directory@),
{
    match answer {
        Ok(response) => issue(response, now, file_directory),
        Err(failure) => (Stage::Failed(exchange_error(failure)), None),
    }
}

pub trait AuthCodeGrantTrait {
    /// The URL to send the user to, and the anti-forgery state that it carries: a text of
    /// [`STATE_LENGTH`] characters, drawn at random. With an endpoint that is no URL there is
    /// none.
    fn generate_authorization_url(&self, scopes: Vec<String>) -> OAuth2Result<(String, String)>;

    /// What follows the provider's answer to the exchange of the authorization code.
    fn exchange_auth_code(
        &self,
        file_directory: &str,
        answer: Result<TokenResponse, ExchangeFailure>,
        now: u64,
    ) -> (Stage, Option<Request>);

    /// One step towards a usable token from the cache.
    fn get_access_token(
        &self,
        file_directory: &str,
        stage: Stage,
        reply: Option<Reply>,
        now: u64,
    ) -> (Stage, Option<Request>);
}

/// Every step of the flow moves on, as every step of a renewal does; and the code of a
/// redirect goes to the provider as it came, once.
pub proof fn lemma_code_grant_moves_on(
    grant: AuthCodeGrantView,
    stage: StageView,
    reply: Option<Reply>,
    now: u64,
    directory: Seq<char>,
    scopes: Seq<Seq<char>>,
    state: Seq<char>,
)
    ensures
        moves_on(stage, grant.advance_model(stage, reply, now, directory, scopes, state)),
        grant.advance_model(stage, reply, now, directory, scopes, state).1 matches Some(
            RequestView::ExchangeCode(code),
        ) ==> stage is AwaitingRedirect && (reply matches Some(Reply::Redirected(Ok(line)))
            && (redirect_of(line@) matches Some(redirect) && redirect.0 == code)),
{
    lemma_renewal_moves_on(stage, reply, now, directory);
}

impl View for AuthCodeGrant {
    type V = AuthCodeGrantView;

    closed spec fn view(&self) -> AuthCodeGrantView {
        AuthCodeGrantView {
            client_id: self.client_id@,
            client_secret: text_of(self.client_secret),
            auth_endpoint: self.auth_endpoint@,
            token_endpoint: self.token_endpoint@,
        }
    }
}

impl AuthCodeGrant {
    pub fn new(
        client_id: String,
        client_secret: Option<String>,
        auth_endpoint: String,
        token_endpoint: String,
    ) -> (grant: Self)
        ensures
            grant@ == (AuthCodeGrantView {
                client_id: client_id@,
                client_secret: text_of(client_secret),
                auth_endpoint: auth_endpoint@,
                token_endpoint: token_endpoint@,
            }),
    {
        Self { client_id, client_secret, auth_endpoint, token_endpoint }
    }

    /// The settings of the client that talks to the provider. Fails with `InvalidUrl` exactly
    /// where an endpoint or the redirect URI is no URL.
    pub fn create_client(&self) -> (made: OAuth2Result<ClientSettings>)
        ensures
            match made {
                Ok(settings) => settings@ == self@.settings() && settings@.usable(),
                Err(e) => !self@.settings().usable() && e.error_code == ErrorCodes::InvalidUrl
                    && e.error_message@ == "An endpoint is not a URL."@,
            },
    {
        if !is_url(self.auth_endpoint.as_str()) || !is_url(self.token_endpoint.as_str())
            || !is_url(REDIRECT_URI) {
            return Err(not_a_url());
        }
        Ok(
            ClientSettings {
                client_id: self.client_id.clone(),
                client_secret: copy_of(&self.client_secret),
                auth_url: self.auth_endpoint.clone(),
                token_url: self.token_endpoint.clone(),
                auth_type: AuthType::RequestBody,
                redirect_url: Some(String::from_str(REDIRECT_URI)),
                device_authorization_url: None,
            },
        )
    }

    /// The URL to send the user to for these scopes, with `state` as the anti-forgery state.
    /// Fails with `InvalidUrl` exactly where the authorization endpoint or the redirect URI is
    /// no URL.
    pub fn authorization_url_with(&self, scopes: &Vec<String>, state: String) -> (made:
        OAuth2Result<(String, String)>)
        ensures
            match made {
                Ok(pair) => self@.authorization_url(texts(scopes@), state@) == Some(pair.0@)
                    && pair.1@ == state@,
                Err(e) => self@.authorization_url(texts(scopes@), state@) is None
                    && e.error_code == ErrorCodes::InvalidUrl && e.error_message@
                    == "An endpoint is not a URL."@,
            },
            made is Ok <==> url_accepted(self@.auth_endpoint) && url_accepted(REDIRECT_URI@),
    {
        match authorization_url(
            self.auth_endpoint.as_str(),
            self.client_id.as_str(),
            REDIRECT_URI,
            scopes,
            state.as_str(),
        ) {
            Some(url) => Ok((url, state)),
            None => Err(not_a_url()),
        }
    }

    /// How a login begins; see [`AuthCodeGrantView::login_model`].
    pub fn login(&self, scopes: &Vec<String>, state: String) -> (next: (Stage, Option<Request>))
        ensures
            (next.0@, asked(next.1)) == self@.login_model(texts(scopes@), state@),
    {
        let sent = state.clone();
        match self.create_client() {
            Ok(_) => match self.authorization_url_with(scopes, state) {
                Ok(pair) => (
                    Stage::AwaitingRedirect { state: sent },
                    Some(Request::Authorize { url: pair.0, state: pair.1 }),
                ),
                Err(e) => (Stage::Failed(e), None),
            },
            Err(e) => (Stage::Failed(e), None),
        }
    }

    /// One step of the flow that ends with a usable token, with `state` as the anti-forgery
    /// state of a login that begins in this step; see [`AuthCodeGrantView::advance_model`].
    pub fn advance_with(
        &self,
        stage: Stage,
        reply: Option<Reply>,
        now: u64,
        file_directory: &str,
        scopes: Vec<String>,
        state: String,
    ) -> (next: (Stage, Option<Request>))
        ensures
            (next.0@, asked(next.1)) == self@.advance_model(
                stage@,
                reply,
                now,
                file_directory@,
                texts(scopes@),
                state@,
            ),
    {
        match stage {
            Stage::Reading => match reply {
                Some(Reply::TokenRead(outcome)) => {
                    let read = token_read(outcome, now, file_directory);
                    let login = match &read.0 {
                        Stage::Failed(e) => e.error_code.calls_for_login(),
                        _ => false,
                    };
                    if login {
                        self.login(&scopes, state)
                    } else {
                        read
                    }
                },
                _ => answered_out_of_turn(),
            },
            Stage::AwaitingRedirect { state: sent } => match reply {
                Some(Reply::Redirected(Ok(line))) => redirected(line.as_str()),
                Some(Reply::Redirected(Err(why))) => (
                    Stage::Failed(OAuth2Error::new(ErrorCodes::IoError, why)),
                    None,
                ),
                _ => answered_out_of_turn(),
            },
            Stage::Exchanging => match reply {
                Some(Reply::Exchanged(answer)) => exchanged(answer, now, file_directory),
                _ => answered_out_of_turn(),
            },
            _ => renew(stage, reply, now, file_directory),
        }
    }

    /// One step of the flow that ends with a usable token. A login that begins in this step
    /// gets a state of [`STATE_LENGTH`] characters drawn at random; for a step that cannot begin
    /// one, none is drawn.
    pub fn advance(
        &self,
        stage: Stage,
        reply: Option<Reply>,
        now: u64,
        file_directory: &str,
        scopes: Vec<String>,
    ) -> (next: (Stage, Option<Request>))
        ensures
            exists|state: Seq<char>|
                state.len() == STATE_LENGTH && (next.0@, asked(next.1))
                    == #[trigger] self@.advance_model(
                    stage@,
                    reply,
                    now,
                    file_directory@,
                    texts(scopes@),
                    state,
                ),
    {
        let may_login = match (&stage, &reply) {
            (Stage::Reading, Some(Reply::TokenRead(_))) => true,
            _ => false,
        };
        if may_login {
            let state = random_state();
            self.advance_with(stage, reply, now, file_directory, scopes, state)
        } else {
            let ghost before = stage@;
            let ghost answer = reply;
            let ghost wanted = texts(scopes@);
            let next = self.advance_with(stage, reply, now, file_directory, scopes, String::new());
            proof {
                let undrawn = Seq::new(STATE_LENGTH as nat, |i: int| 'A');
                assert(undrawn.len() == STATE_LENGTH);
                assert(self@.advance_model(before, answer, now, file_directory@, wanted, undrawn)
                    == self@.advance_model(
                    before,
                    answer,
                    now,
                    file_directory@,
                    wanted,
                    Seq::<char>::empty(),
                ));
            }
            next
        }
    }
}

impl AuthCodeGrantTrait for AuthCodeGrant {
    fn generate_authorization_url(&self, scopes: Vec<String>) -> (made: OAuth2Result<
        (String, String),
    >)
        ensures
            match made {
                Ok(pair) => self@.authorization_url(texts(scopes@), pair.1@) == Some(pair.0@)
                    && pair.1@.len() == STATE_LENGTH,
                Err(e) => e.error_code == ErrorCodes::InvalidUrl && e.error_message@
                    == "An endpoint is not a URL."@,
            },
            made is Ok <==> self@.settings().usable(),
    {
        match self.create_client() {
            Ok(_) => self.authorization_url_with(&scopes, random_state()),
            Err(e) => Err(e),
        }
    }

    fn exchange_auth_code(
        &self,
        file_directory: &str,
        answer: Result<TokenResponse, ExchangeFailure>,
        now: u64,
    ) -> (next: (Stage, Option<Request>))
        ensures
            (next.0@, asked(next.1)) == exchanged_model(answer, now, file_directory@),
    {
        exchanged(answer, now, file_directory)
    }

    fn get_access_token(
        &self,
        file_directory: &str,
        stage: Stage,
        reply: Option<Reply>,
        now: u64,
    ) -> (next: (Stage, Option<Request>))
        ensures
            (next.0@, asked(next.1)) == renew_model(stage@, reply, now, file_directory@),
    {
        renew(stage, reply, now, file_directory)
    }
}

} // verus!
