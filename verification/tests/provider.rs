use xoauth2_token::error::ErrorCodes;
use xoauth2_token::provider::{exchange_error, poll_error, ExchangeFailure};

fn server(error: &str, description: Option<&str>) -> ExchangeFailure {
    ExchangeFailure::ServerResponse {
        error: error.to_string(),
        description: description.map(|d| d.to_string()),
    }
}

#[test]
fn a_rejected_exchange_is_an_exchange_error_with_the_providers_words() {
    let e = exchange_error(server("invalid_grant", Some("The code was already redeemed.")));
    assert_eq!(e.error_code, ErrorCodes::ExchangeError);
    assert_eq!(e.error_message, "invalid_grant: The code was already redeemed.");
    let e = exchange_error(server("invalid_client", None));
    assert_eq!(e.error_code, ErrorCodes::ExchangeError);
    assert_eq!(e.error_message, "invalid_client");
}

#[test]
fn a_request_that_did_not_get_through_is_a_transport_error() {
    let e = exchange_error(ExchangeFailure::Request("connection reset".to_string()));
    assert_eq!(e.error_code, ErrorCodes::TransportError);
    assert_eq!(e.error_message, "connection reset");
    let e = poll_error(ExchangeFailure::Request("timed out".to_string()));
    assert_eq!(e.error_code, ErrorCodes::TransportError);
    assert_eq!(e.error_message, "timed out");
}

#[test]
fn an_answer_that_cannot_be_read_is_an_exchange_error() {
    for failure in [
        ExchangeFailure::Parse("not json".to_string()),
        ExchangeFailure::Other("Server returned empty error response".to_string()),
    ] {
        let text = match &failure {
            ExchangeFailure::Parse(t) | ExchangeFailure::Other(t) => t.clone(),
            _ => unreachable!(),
        };
        let e = exchange_error(failure.clone());
        assert_eq!(e.error_code, ErrorCodes::ExchangeError);
        assert_eq!(e.error_message, text);
        let e = poll_error(failure);
        assert_eq!(e.error_code, ErrorCodes::ExchangeError);
        assert_eq!(e.error_message, text);
    }
}

#[test]
fn a_refused_device_is_denied() {
    let e = poll_error(server("access_denied", Some("The user refused.")));
    assert_eq!(e.error_code, ErrorCodes::Denied);
    assert_eq!(e.error_message, "access_denied: The user refused.");
}

#[test]
fn a_session_that_ran_out_is_expired() {
    let e = poll_error(server("expired_token", Some("This device code has expired.")));
    assert_eq!(e.error_code, ErrorCodes::Expired);
    assert_eq!(e.error_message, "expired_token: This device code has expired.");
}

#[test]
fn other_answers_to_a_poll_are_exchange_errors() {
    for code in ["invalid_grant", "access_denied ", "Access_Denied", "expired_tokens", ""] {
        let e = poll_error(server(code, None));
        assert_eq!(e.error_code, ErrorCodes::ExchangeError, "for {code:?}");
        assert_eq!(e.error_message, code);
    }
}

#[test]
fn denial_and_expiry_are_exchange_errors_outside_the_device_flow() {
    assert_eq!(exchange_error(server("access_denied", None)).error_code, ErrorCodes::ExchangeError);
    assert_eq!(exchange_error(server("expired_token", None)).error_code, ErrorCodes::ExchangeError);
}
