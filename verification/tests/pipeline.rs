use torrent_proxy::digits::{decimal_string, parse_usize};
use torrent_proxy::errors::DownloadError;
use torrent_proxy::handler::{
    RequestSettings, TokenOutcome, file_failure, on_token_response, parse_id, status_ok,
    success_response, token_request, transport_failure, wait_seconds,
};
use torrent_proxy::requests::{content_disposition, file_url, token_body, token_url};

fn settings(id: usize, turbo: Option<bool>) -> RequestSettings {
    RequestSettings {
        id,
        domain: String::from("example.org"),
        turbo,
    }
}

#[test]
fn decimal_strings_are_exact() {
    assert_eq!(decimal_string(0), "0");
    assert_eq!(decimal_string(7), "7");
    assert_eq!(decimal_string(42), "42");
    assert_eq!(decimal_string(1234567890), "1234567890");
    assert_eq!(decimal_string(u64::MAX), "18446744073709551615");
}

#[test]
fn parse_reads_digits_back() {
    assert_eq!(parse_usize("0"), Some(0));
    assert_eq!(parse_usize("42"), Some(42));
    assert_eq!(parse_usize("987654321"), Some(987654321));
    assert_eq!(parse_usize(""), None);
    assert_eq!(parse_usize("12a"), None);
    assert_eq!(parse_usize("-3"), None);
    assert_eq!(parse_usize("99999999999999999999999999"), None);
}

#[test]
fn parse_formats_round_trip() {
    for n in [0u64, 1, 9, 10, 30302, 4294967295] {
        assert_eq!(parse_usize(&decimal_string(n)), Some(n as usize));
    }
}

#[test]
fn parse_id_rejects_bad_segments() {
    assert!(matches!(parse_id("42"), Ok(42)));
    assert!(matches!(parse_id(""), Err(DownloadError::InvalidId)));
    assert!(matches!(
        parse_id("99999999999999999999999999"),
        Err(DownloadError::InvalidId)
    ));
}

#[test]
fn disposition_names_the_id() {
    assert_eq!(content_disposition(42), "attachment; filename=\"42.torrent\"");
    assert_eq!(content_disposition(0), "attachment; filename=\"0.torrent\"");
    assert_eq!(
        content_disposition(usize::MAX),
        format!("attachment; filename=\"{}.torrent\"", usize::MAX)
    );
}

#[test]
fn token_request_is_form_encoded_post() {
    let r = token_request(&settings(42, None));
    assert_eq!(r.url, "https://example.org/engine/start_download_timer");
    assert_eq!(r.body, "torrent_id=42");
    assert_eq!(
        r.content_type,
        "application/x-www-form-urlencoded; charset=UTF-8"
    );
}

#[test]
fn urls_embed_domain_id_and_token() {
    assert_eq!(
        token_url("tracker.test"),
        "https://tracker.test/engine/start_download_timer"
    );
    assert_eq!(token_body(7), "torrent_id=7");
    assert_eq!(
        file_url("tracker.test", 7, "deadbeef"),
        "https://tracker.test/engine/download_torrent?id=7&token=deadbeef"
    );
}

#[test]
fn token_failure_status_embedded_and_no_second_call() {
    let r = on_token_response(&settings(42, None), 500, "{\"token\":\"abc123\"}");
    match r {
        TokenOutcome::Fail(DownloadError::TokenStatus(500)) => {}
        _ => panic!("expected a status failure carrying 500"),
    }
    // The failing outcome holds no file URL, so no second call can be made.
    let m = match r {
        TokenOutcome::Fail(e) => e.message(),
        TokenOutcome::Proceed { .. } => panic!("no second call may follow a failed first call"),
    };
    assert_eq!(m, "Failed to get token: 500");
    assert!(m.contains("500"));
}

#[test]
fn missing_token_fails_without_second_call() {
    for body in ["{}", "{\"other\":\"x\"}", "{\"token\":7}", "not json", "[1,2]"] {
        let r = on_token_response(&settings(42, None), 200, body);
        match r {
            TokenOutcome::Fail(DownloadError::TokenMissing) => {}
            _ => panic!("expected a missing-token failure for body {body:?}"),
        }
    }
    let e = DownloadError::TokenMissing;
    assert_eq!(e.message(), "Token not found in start_download_timer response");
}

#[test]
fn token_success_builds_file_url_from_extracted_token() {
    let r = on_token_response(&settings(42, Some(true)), 200, "{\"token\":\"abc123\"}");
    match r {
        TokenOutcome::Proceed { wait_seconds, file_url } => {
            assert_eq!(wait_seconds, 0);
            assert_eq!(
                file_url,
                "https://example.org/engine/download_torrent?id=42&token=abc123"
            );
        }
        TokenOutcome::Fail(e) => panic!("unexpected failure: {}", e.message()),
    }
}

#[test]
fn delay_applies_unless_turbo_is_true() {
    assert_eq!(wait_seconds(None), 30);
    assert_eq!(wait_seconds(Some(false)), 30);
    assert_eq!(wait_seconds(Some(true)), 0);
    match on_token_response(&settings(1, None), 204, "{\"token\":\"t\"}") {
        TokenOutcome::Proceed { wait_seconds, .. } => assert_eq!(wait_seconds, 30),
        TokenOutcome::Fail(e) => panic!("unexpected failure: {}", e.message()),
    }
    match on_token_response(&settings(1, Some(false)), 200, "{\"token\":\"t\"}") {
        TokenOutcome::Proceed { wait_seconds, .. } => assert_eq!(wait_seconds, 30),
        TokenOutcome::Fail(e) => panic!("unexpected failure: {}", e.message()),
    }
}

#[test]
fn redirect_is_not_success_and_keeps_body_text() {
    assert!(!status_ok(302));
    let e = file_failure(302, String::from("limit reached"));
    match &e {
        DownloadError::FileStatus { status, body } => {
            assert_eq!(*status, 302);
            assert_eq!(body, "limit reached");
        }
        _ => panic!("expected a file-status failure"),
    }
    let m = e.message();
    assert_eq!(m, "Failed to get torrent file: 302 limit reached");
    assert!(m.contains("limit reached"));
    assert!(m.contains("302"));
}

#[test]
fn status_range_is_exactly_two_hundreds() {
    assert!(!status_ok(199));
    assert!(status_ok(200));
    assert!(status_ok(204));
    assert!(status_ok(299));
    assert!(!status_ok(300));
    assert!(!status_ok(404));
    assert!(!status_ok(500));
}

#[test]
fn transport_failure_keeps_description() {
    let e = transport_failure(String::from("connection refused"));
    assert_eq!(e.message(), "connection refused");
}

#[test]
fn full_turbo_exchange_returns_bytes_and_headers() {
    let s = settings(42, Some(true));
    let first = token_request(&s);
    assert_eq!(first.url, "https://example.org/engine/start_download_timer");
    assert_eq!(first.body, "torrent_id=42");
    let next = on_token_response(&s, 200, "{\"token\":\"abc123\"}");
    let url = match next {
        TokenOutcome::Proceed { wait_seconds, file_url } => {
            assert_eq!(wait_seconds, 0);
            file_url
        }
        TokenOutcome::Fail(e) => panic!("unexpected failure: {}", e.message()),
    };
    assert_eq!(url, "https://example.org/engine/download_torrent?id=42&token=abc123");
    assert!(status_ok(200));
    let resp = success_response(&s, vec![0x01, 0x02, 0x03]);
    assert_eq!(resp.body, vec![0x01, 0x02, 0x03]);
    assert_eq!(resp.content_type, "application/x-bittorrent");
    assert_eq!(resp.content_disposition, "attachment; filename=\"42.torrent\"");
}

#[test]
fn invalid_id_has_a_message() {
    assert_eq!(DownloadError::InvalidId.message(), "Invalid torrent id");
}
