use xoauth2_token::auth_code_grant::{
    capture_redirect, exchanged, redirected, request_target, value_of, AuthCodeGrant,
    AuthCodeGrantTrait, Redirect, REDIRECT_URI,
};
use xoauth2_token::error::ErrorCodes;
use xoauth2_token::flow::{Reply, Request, Stage};
use xoauth2_token::provider::{AuthType, ExchangeFailure, STATE_LENGTH};
use xoauth2_token::token_keeper::{
    ReadOutcome, StoredToken, TokenKeeper, TokenResponse, WriteOutcome,
};

fn grant() -> AuthCodeGrant {
    AuthCodeGrant::new(
        "client-1".to_string(),
        Some("secret-1".to_string()),
        "https://login.example.com/oauth2/v2.0/authorize".to_string(),
        "https://login.example.com/oauth2/v2.0/token".to_string(),
    )
}

fn scopes() -> Vec<String> {
    vec!["offline_access".to_string(), "https://outlook.office.com/SMTP.Send".to_string()]
}

fn response(token: &str) -> TokenResponse {
    TokenResponse {
        access_token: token.to_string(),
        refresh_token: Some("refresh".to_string()),
        expires_in: Some(3_600),
        token_type: "bearer".to_string(),
    }
}

fn failed_with(stage: &Stage) -> (ErrorCodes, String) {
    match stage {
        Stage::Failed(e) => (e.error_code, e.error_message.clone()),
        other => panic!("the flow has not failed: {other:?}"),
    }
}

#[test]
fn the_target_is_the_second_word_of_the_request_line() {
    assert_eq!(request_target("GET /?code=ABC HTTP/1.1"), Some("/?code=ABC".to_string()));
    assert_eq!(request_target("GET /?code=ABC HTTP/1.1\r\n"), Some("/?code=ABC".to_string()));
    assert_eq!(request_target("  GET \t /x  HTTP/1.1"), Some("/x".to_string()));
    assert_eq!(request_target("GET /only"), Some("/only".to_string()));
    assert_eq!(request_target("GET /only\r\n"), Some("/only".to_string()));
    assert_eq!(request_target("GET"), None);
    assert_eq!(request_target("GET   "), None);
    assert_eq!(request_target(""), None);
    assert_eq!(request_target(" \r\n"), None);
    assert_eq!(request_target("POST /gr\u{fc}n?x=1 HTTP/1.1"), Some("/gr\u{fc}n?x=1".to_string()));
}

#[test]
fn the_first_pair_of_a_name_gives_the_value() {
    let pairs = vec![
        ("state".to_string(), "s1".to_string()),
        ("code".to_string(), "c1".to_string()),
        ("code".to_string(), "c2".to_string()),
    ];
    assert_eq!(value_of(&pairs, "code"), Some("c1".to_string()));
    assert_eq!(value_of(&pairs, "state"), Some("s1".to_string()));
    assert_eq!(value_of(&pairs, "Code"), None);
    assert_eq!(value_of(&Vec::new(), "code"), None);
}

#[test]
fn the_code_of_a_redirect_is_extracted_exactly() {
    let captured = capture_redirect("GET /?code=ABC&state=XYZ HTTP/1.1").unwrap();
    assert_eq!(captured, Redirect { code: "ABC".to_string(), state: Some("XYZ".to_string()) });
    let captured = capture_redirect("?code=ABC&state=XYZ");
    assert_eq!(captured.unwrap_err().error_code, ErrorCodes::InvalidRedirect);
    let captured = capture_redirect("GET ?code=ABC&state=XYZ").unwrap();
    assert_eq!(captured, Redirect { code: "ABC".to_string(), state: Some("XYZ".to_string()) });
}

#[test]
fn the_code_goes_unmodified_into_the_exchange_request() {
    let (stage, request) = redirected("GET /?code=ABC&state=XYZ HTTP/1.1");
    assert_eq!(stage, Stage::Exchanging);
    assert_eq!(request, Some(Request::ExchangeCode { code: "ABC".to_string() }));
}

#[test]
fn a_redirect_is_decoded_as_a_form() {
    let captured =
        capture_redirect("GET /?state=a%20b&code=0.AX%2Fy-z_1%3D&session_state=q HTTP/1.1").unwrap();
    assert_eq!(captured.code, "0.AX/y-z_1=");
    assert_eq!(captured.state, Some("a b".to_string()));
    let captured = capture_redirect("GET /callback?code=a+b HTTP/1.1").unwrap();
    assert_eq!(captured.code, "a b");
    assert_eq!(captured.state, None);
}

#[test]
fn a_redirect_without_code_is_invalid() {
    for line in [
        "",
        "GET",
        "GET / HTTP/1.1",
        "GET /?state=XYZ HTTP/1.1",
        "GET /?error=access_denied&state=XYZ HTTP/1.1",
        "GET /?Code=ABC HTTP/1.1",
        "GET /#code=ABC HTTP/1.1",
    ] {
        let e = capture_redirect(line).unwrap_err();
        assert_eq!(e.error_code, ErrorCodes::InvalidRedirect, "for {line:?}");
        assert_eq!(e.error_message, "The redirect carries no authorization code.");
        let (stage, request) = redirected(line);
        assert_eq!(request, None);
        assert_eq!(failed_with(&stage).0, ErrorCodes::InvalidRedirect);
    }
}

#[test]
fn an_empty_code_is_a_code() {
    let captured = capture_redirect("GET /?code=&state=s HTTP/1.1").unwrap();
    assert_eq!(captured, Redirect { code: String::new(), state: Some("s".to_string()) });
}

#[test]
fn the_settings_of_the_client() {
    let settings = grant().create_client().unwrap();
    assert_eq!(settings.client_id, "client-1");
    assert_eq!(settings.client_secret, Some("secret-1".to_string()));
    assert_eq!(settings.auth_url, "https://login.example.com/oauth2/v2.0/authorize");
    assert_eq!(settings.token_url, "https://login.example.com/oauth2/v2.0/token");
    assert_eq!(settings.auth_type, AuthType::RequestBody);
    assert_eq!(settings.redirect_url, Some("http://localhost:8080".to_string()));
    assert_eq!(settings.device_authorization_url, None);
    assert_eq!(REDIRECT_URI, "http://localhost:8080");
}

#[test]
fn an_endpoint_that_is_no_url_is_refused() {
    let bad_auth = AuthCodeGrant::new(
        "c".to_string(),
        None,
        "not a url".to_string(),
        "https://login.example.com/token".to_string(),
    );
    let e = bad_auth.create_client().unwrap_err();
    assert_eq!(e.error_code, ErrorCodes::InvalidUrl);
    assert_eq!(e.error_message, "An endpoint is not a URL.");
    let e = bad_auth.generate_authorization_url(scopes()).unwrap_err();
    assert_eq!(e.error_code, ErrorCodes::InvalidUrl);
    let bad_token = AuthCodeGrant::new(
        "c".to_string(),
        None,
        "https://login.example.com/authorize".to_string(),
        "/relative".to_string(),
    );
    assert_eq!(bad_token.create_client().unwrap_err().error_code, ErrorCodes::InvalidUrl);
    let e = bad_token.generate_authorization_url(scopes()).unwrap_err();
    assert_eq!(e.error_code, ErrorCodes::InvalidUrl);
    assert!(bad_token.authorization_url_with(&scopes(), "s".to_string()).is_ok());
    let (stage, request) = bad_token.login(&scopes(), "s".to_string());
    assert_eq!(request, None);
    assert_eq!(failed_with(&stage).0, ErrorCodes::InvalidUrl);
}

#[test]
fn the_authorization_url_carries_client_state_redirect_and_scopes() {
    let (url, state) = grant()
        .authorization_url_with(&scopes(), "state-123".to_string())
        .unwrap();
    assert_eq!(state, "state-123");
    assert_eq!(
        url,
        "https://login.example.com/oauth2/v2.0/authorize?response_type=code&client_id=client-1\
         &state=state-123&redirect_uri=http%3A%2F%2Flocalhost%3A8080\
         &scope=offline_access+https%3A%2F%2Foutlook.office.com%2FSMTP.Send"
    );
    let (url, _) = grant().authorization_url_with(&Vec::new(), "s".to_string()).unwrap();
    assert_eq!(
        url,
        "https://login.example.com/oauth2/v2.0/authorize?response_type=code&client_id=client-1\
         &state=s&redirect_uri=http%3A%2F%2Flocalhost%3A8080"
    );
}

#[test]
fn a_generated_url_carries_the_state_that_comes_with_it() {
    let (url, state) = grant().generate_authorization_url(scopes()).unwrap();
    assert_eq!(state.chars().count(), STATE_LENGTH);
    assert_eq!(STATE_LENGTH, 22);
    let expected = grant().authorization_url_with(&scopes(), state.clone()).unwrap().0;
    assert_eq!(url, expected);
    let (_, other) = grant().generate_authorization_url(scopes()).unwrap();
    assert_ne!(state, other);
}

#[test]
fn the_answer_to_the_exchange_becomes_the_record_to_save() {
    let (stage, request) = grant().exchange_auth_code("dir", Ok(response("tok")), 50);
    let content = StoredToken {
        access_token: "tok".to_string(),
        refresh_token: Some("refresh".to_string()),
        token_type: "bearer".to_string(),
        expires_in: 3_600,
        token_receive_time: 50,
    };
    assert_eq!(request, Some(Request::SaveToken(content.clone())));
    let keeper = TokenKeeper::from_stored(content, "dir".to_string()).unwrap();
    assert_eq!(stage, Stage::Saving(keeper));
    let failure = ExchangeFailure::ServerResponse {
        error: "invalid_grant".to_string(),
        description: Some("The code has been used.".to_string()),
    };
    let (stage, request) = exchanged(Err(failure), 50, "dir");
    assert_eq!(request, None);
    assert_eq!(
        failed_with(&stage),
        (ErrorCodes::ExchangeError, "invalid_grant: The code has been used.".to_string())
    );
}

#[test]
fn without_a_cached_token_the_user_logs_in() {
    let grant = grant();
    let scopes = scopes();
    let mut requests = Vec::new();
    let (stage, request) = grant.advance_with(Stage::Start, None, 10, "dir", scopes.clone(), "unused".to_string());
    requests.extend(request);
    let read = Some(Reply::TokenRead(ReadOutcome::Missing));
    let (stage, request) = grant.advance_with(stage, read, 11, "dir", scopes.clone(), "st".to_string());
    assert_eq!(stage, Stage::AwaitingRedirect { state: "st".to_string() });
    let url = grant.authorization_url_with(&scopes, "st".to_string()).unwrap().0;
    assert_eq!(request, Some(Request::Authorize { url, state: "st".to_string() }));
    requests.extend(request);
    let line = Some(Reply::Redirected(Ok("GET /?code=ABC&state=st HTTP/1.1".to_string())));
    let (stage, request) = grant.advance_with(stage, line, 20, "dir", scopes.clone(), "unused".to_string());
    assert_eq!(stage, Stage::Exchanging);
    assert_eq!(request, Some(Request::ExchangeCode { code: "ABC".to_string() }));
    requests.extend(request);
    let answer = Some(Reply::Exchanged(Ok(response("tok"))));
    let (stage, request) = grant.advance_with(stage, answer, 21, "dir", scopes.clone(), "unused".to_string());
    assert!(matches!(request, Some(Request::SaveToken(_))));
    requests.extend(request);
    let saved = Some(Reply::TokenSaved(WriteOutcome::Written));
    let (stage, request) = grant.advance_with(stage, saved, 22, "dir", scopes.clone(), "unused".to_string());
    assert_eq!(request, None);
    match stage {
        Stage::Complete(keeper) => {
            assert_eq!(keeper.access_token(), "tok");
            assert_eq!(keeper.token_receive_time(), 21);
            assert_eq!(keeper.file_directory(), "dir");
        }
        other => panic!("not complete: {other:?}"),
    }
    assert_eq!(requests.len(), 4);
}

#[test]
fn a_malformed_cache_calls_for_a_login_and_an_unreadable_one_does_not() {
    let grant = grant();
    let corrupt = Some(Reply::TokenRead(ReadOutcome::Corrupt("bad json".to_string())));
    let (stage, _) = grant.advance(Stage::Reading, corrupt, 0, "dir", scopes());
    assert!(matches!(stage, Stage::AwaitingRedirect { .. }));
    let unreadable = Some(Reply::TokenRead(ReadOutcome::Unreadable("denied".to_string())));
    let (stage, request) = grant.advance(Stage::Reading, unreadable, 0, "dir", scopes());
    assert_eq!(request, None);
    assert_eq!(failed_with(&stage), (ErrorCodes::IoError, "denied".to_string()));
}

#[test]
fn with_a_cached_token_the_flow_is_the_renewal() {
    let grant = grant();
    let content = StoredToken {
        access_token: "tok".to_string(),
        refresh_token: None,
        token_type: "bearer".to_string(),
        expires_in: 10,
        token_receive_time: 0,
    };
    let read = Some(Reply::TokenRead(ReadOutcome::Found(content.clone())));
    let (stage, request) = grant.advance(Stage::Reading, read, 5, "dir", scopes());
    assert_eq!(request, None);
    assert!(matches!(stage, Stage::Complete(_)));
    let read = Some(Reply::TokenRead(ReadOutcome::Found(content.clone())));
    let (stage, request) = grant.advance(Stage::Reading, read, 10, "dir", scopes());
    assert_eq!((stage, request), (Stage::Deleting, Some(Request::DeleteToken)));
    let read = Some(Reply::TokenRead(ReadOutcome::Found(content)));
    let (stage, request) = grant.get_access_token("dir", Stage::Reading, read, 10);
    assert_eq!((stage, request), (Stage::Deleting, Some(Request::DeleteToken)));
    let missing = Some(Reply::TokenRead(ReadOutcome::Missing));
    let (stage, request) = grant.get_access_token("dir", Stage::Reading, missing, 10);
    assert_eq!(request, None);
    assert_eq!(failed_with(&stage).0, ErrorCodes::NotFound);
}

#[test]
fn a_login_with_a_bad_endpoint_fails() {
    let grant = AuthCodeGrant::new("c".to_string(), None, "nowhere".to_string(), "x".to_string());
    let (stage, request) = grant.login(&scopes(), "s".to_string());
    assert_eq!(request, None);
    assert_eq!(failed_with(&stage), (ErrorCodes::InvalidUrl, "An endpoint is not a URL.".to_string()));
}

#[test]
fn an_answer_out_of_turn_ends_the_login() {
    let grant = grant();
    let stage = Stage::AwaitingRedirect { state: "s".to_string() };
    let (stage, request) = grant.advance(stage, Some(Reply::Exchanged(Ok(response("t")))), 0, "d", scopes());
    assert_eq!(request, None);
    assert_eq!(failed_with(&stage).0, ErrorCodes::OutOfTurn);
    let (stage, _) = grant.advance(Stage::Exchanging, None, 0, "d", scopes());
    assert_eq!(failed_with(&stage).0, ErrorCodes::OutOfTurn);
    let (stage, _) = grant.advance(Stage::Polling, Some(Reply::Exchanged(Ok(response("t")))), 0, "d", scopes());
    assert_eq!(failed_with(&stage).0, ErrorCodes::OutOfTurn);
}

#[test]
fn a_redirect_that_was_not_captured_is_an_io_error() {
    let grant = grant();
    let stage = Stage::AwaitingRedirect { state: "s".to_string() };
    let reply = Some(Reply::Redirected(Err("address already in use".to_string())));
    let (stage, request) = grant.advance(stage, reply, 0, "d", scopes());
    assert_eq!(request, None);
    assert_eq!(failed_with(&stage), (ErrorCodes::IoError, "address already in use".to_string()));
}

#[test]
fn a_login_that_begins_carries_a_drawn_state() {
    let grant = grant();
    let read = Some(Reply::TokenRead(ReadOutcome::Missing));
    let (stage, request) = grant.advance(Stage::Reading, read, 0, "dir", scopes());
    let sent = match stage {
        Stage::AwaitingRedirect { state } => state,
        other => panic!("no login began: {other:?}"),
    };
    assert_eq!(sent.chars().count(), STATE_LENGTH);
    let url = grant.authorization_url_with(&scopes(), sent.clone()).unwrap().0;
    assert_eq!(request, Some(Request::Authorize { url, state: sent }));
}
