use xoauth2_token::error::ErrorCodes;
use xoauth2_token::token_keeper::{
    since_epoch, unix_now, ReadOutcome, RemoveOutcome, StoredToken, TokenKeeper, TokenResponse, WriteOutcome,
};

fn response(token: &str, lifetime: Option<u64>, refresh: Option<&str>) -> TokenResponse {
    TokenResponse {
        access_token: token.to_string(),
        refresh_token: refresh.map(|t| t.to_string()),
        expires_in: lifetime,
        token_type: "bearer".to_string(),
    }
}

fn stored(token: &str, lifetime: u64, received: u64, refresh: Option<&str>) -> StoredToken {
    StoredToken {
        access_token: token.to_string(),
        refresh_token: refresh.map(|t| t.to_string()),
        token_type: "bearer".to_string(),
        expires_in: lifetime,
        token_receive_time: received,
    }
}

#[test]
fn a_token_expires_at_receipt_plus_lifetime() {
    let keeper = TokenKeeper::from_response(
        response("access-1", Some(3600), None),
        1_000,
        "cache".to_string(),
    )
    .unwrap();
    assert!(!keeper.has_expired_at(1_000));
    assert!(!keeper.has_expired_at(4_599));
    assert!(keeper.has_expired_at(4_600));
    assert!(keeper.has_expired_at(4_601));
}

#[test]
fn expiry_in_the_past_is_expired_and_in_the_future_is_not() {
    let keeper = TokenKeeper::from_stored(stored("t", 50, 100, None), "d".to_string()).unwrap();
    for now in [150u64, 151, 1_000, u64::MAX] {
        assert!(keeper.has_expired_at(now), "at {now}");
    }
    for now in [0u64, 99, 100, 149] {
        assert!(!keeper.has_expired_at(now), "at {now}");
    }
}

#[test]
fn expiry_beyond_the_largest_moment_never_comes() {
    let keeper =
        TokenKeeper::from_stored(stored("t", u64::MAX, 5, None), "d".to_string()).unwrap();
    assert!(!keeper.has_expired_at(u64::MAX));
    let keeper =
        TokenKeeper::from_stored(stored("t", u64::MAX, 0, None), "d".to_string()).unwrap();
    assert!(keeper.has_expired_at(u64::MAX));
    assert!(!keeper.has_expired_at(u64::MAX - 1));
}

#[test]
fn a_response_without_lifetime_has_run_out_on_receipt() {
    let keeper =
        TokenKeeper::from_response(response("a", None, None), 500, "d".to_string()).unwrap();
    assert_eq!(keeper.expires_in(), 0);
    assert_eq!(keeper.token_receive_time(), 500);
    assert!(keeper.has_expired_at(500));
    assert!(!keeper.has_expired_at(499));
}

#[test]
fn a_response_becomes_a_record_field_by_field() {
    let keeper = TokenKeeper::from_response(
        response("access-9", Some(7), Some("refresh-9")),
        42,
        "some/dir".to_string(),
    )
    .unwrap();
    assert_eq!(keeper.access_token(), "access-9");
    assert_eq!(keeper.refresh_token(), &Some("refresh-9".to_string()));
    assert_eq!(keeper.token_type(), "bearer");
    assert_eq!(keeper.expires_in(), 7);
    assert_eq!(keeper.token_receive_time(), 42);
    assert_eq!(keeper.file_directory(), "some/dir");
}

#[test]
fn a_response_without_access_token_is_a_failed_exchange() {
    let made = TokenKeeper::from_response(response("", Some(60), Some("r")), 1, "d".to_string());
    let e = made.unwrap_err();
    assert_eq!(e.error_code, ErrorCodes::ExchangeError);
    assert_eq!(e.error_message, "The provider issued an empty access token.");
}

#[test]
fn stored_content_without_access_token_is_malformed() {
    let made = TokenKeeper::from_stored(stored("", 60, 1, None), "d".to_string());
    let e = made.unwrap_err();
    assert_eq!(e.error_code, ErrorCodes::Malformed);
    assert_eq!(e.error_message, "The cached record holds no access token.");
}

#[test]
fn read_of_a_missing_file_is_not_found() {
    let read = TokenKeeper::read(ReadOutcome::Missing, "cache".to_string());
    let e = read.unwrap_err();
    assert_eq!(e.error_code, ErrorCodes::NotFound);
    assert_eq!(e.error_message, "No token is cached.");
}

#[test]
fn read_of_a_corrupt_file_is_malformed() {
    let read = TokenKeeper::read(
        ReadOutcome::Corrupt("expected value at line 1".to_string()),
        "cache".to_string(),
    );
    let e = read.unwrap_err();
    assert_eq!(e.error_code, ErrorCodes::Malformed);
    assert_eq!(e.error_message, "expected value at line 1");
}

#[test]
fn read_of_an_unreadable_file_is_an_io_error() {
    let read = TokenKeeper::read(
        ReadOutcome::Unreadable("permission denied".to_string()),
        "cache".to_string(),
    );
    let e = read.unwrap_err();
    assert_eq!(e.error_code, ErrorCodes::IoError);
    assert_eq!(e.error_message, "permission denied");
}

#[test]
fn read_of_a_found_record_loads_it_under_the_directory() {
    let read = TokenKeeper::read(
        ReadOutcome::Found(stored("tok", 10, 20, Some("ref"))),
        "where".to_string(),
    )
    .unwrap();
    assert_eq!(read.access_token(), "tok");
    assert_eq!(read.refresh_token(), &Some("ref".to_string()));
    assert_eq!(read.expires_in(), 10);
    assert_eq!(read.token_receive_time(), 20);
    assert_eq!(read.file_directory(), "where");
}

#[test]
fn what_is_stored_loads_back() {
    let keeper = TokenKeeper::from_response(
        response("access-1", Some(60), Some("refresh-1")),
        77,
        "cache".to_string(),
    )
    .unwrap();
    let content: StoredToken = keeper.to_stored();
    assert_eq!(content, stored("access-1", 60, 77, Some("refresh-1")));
    let loaded = TokenKeeper::from_stored(content, "cache".to_string()).unwrap();
    assert_eq!(loaded, keeper);
    assert_eq!(loaded.has_expired_at(136), keeper.has_expired_at(136));
    assert_eq!(loaded.has_expired_at(137), keeper.has_expired_at(137));
}

#[test]
fn save_reports_what_the_writing_came_to() {
    let keeper = TokenKeeper::from_stored(stored("t", 1, 1, None), "d".to_string()).unwrap();
    assert_eq!(keeper.save(WriteOutcome::Written), Ok(()));
    let e = keeper.save(WriteOutcome::Failed("disk full".to_string())).unwrap_err();
    assert_eq!(e.error_code, ErrorCodes::IoError);
    assert_eq!(e.error_message, "disk full");
}

#[test]
fn delete_of_a_missing_file_does_not_fail() {
    assert_eq!(TokenKeeper::delete(RemoveOutcome::Missing), Ok(()));
    assert_eq!(TokenKeeper::delete(RemoveOutcome::Removed), Ok(()));
    let e = TokenKeeper::delete(RemoveOutcome::Failed("busy".to_string())).unwrap_err();
    assert_eq!(e.error_code, ErrorCodes::IoError);
    assert_eq!(e.error_message, "busy");
}

#[test]
fn delete_then_read_is_not_found() {
    assert_eq!(TokenKeeper::delete(RemoveOutcome::Removed), Ok(()));
    let e = TokenKeeper::read(ReadOutcome::Missing, "d".to_string()).unwrap_err();
    assert_eq!(e.error_code, ErrorCodes::NotFound);
}

#[test]
fn set_directory_changes_nothing_else() {
    let mut keeper =
        TokenKeeper::from_stored(stored("t", 3, 4, Some("r")), "old".to_string()).unwrap();
    keeper.set_directory("new".to_string());
    assert_eq!(keeper.file_directory(), "new");
    assert_eq!(keeper.to_stored(), stored("t", 3, 4, Some("r")));
}

#[test]
fn duplicate_is_equal() {
    let keeper = TokenKeeper::from_stored(stored("t", 3, 4, Some("r")), "d".to_string()).unwrap();
    assert_eq!(keeper.duplicate(), keeper);
}

#[test]
fn the_clock_stands_in_this_century() {
    let now = unix_now();
    assert!(now > 1_600_000_000);
    assert!(now < 4_102_444_800);
}

#[test]
fn expiry_by_the_clock() {
    let now = unix_now();
    let fresh =
        TokenKeeper::from_response(response("a", Some(3_600), None), now, "d".to_string()).unwrap();
    assert!(!fresh.has_access_token_expired());
    let stale = TokenKeeper::from_response(response("a", Some(10), None), now - 100, "d".to_string())
        .unwrap();
    assert!(stale.has_access_token_expired());
}

#[test]
fn a_clock_before_the_epoch_stands_at_the_epoch() {
    assert_eq!(since_epoch(-1), 0);
    assert_eq!(since_epoch(i64::MIN), 0);
    assert_eq!(since_epoch(0), 0);
    assert_eq!(since_epoch(1), 1);
    assert_eq!(since_epoch(1_700_000_000), 1_700_000_000);
    assert_eq!(since_epoch(i64::MAX), 9_223_372_036_854_775_807);
}
