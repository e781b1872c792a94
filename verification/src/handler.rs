//! The handler's decision pipeline.  One request runs in two upstream
//! exchanges: first a token request, then — after an optional pacing
//! delay — the file request built from the returned token.  The functions
//! here take the plain values the exchanges produce (statuses, body
//! texts, bytes) and decide what happens next; the caller performs the
//! actual network calls and the sleep with the values returned from here.
//!
//! A failed token exchange yields a [`TokenOutcome::Fail`], which carries
//! no file URL: the second call cannot even be addressed after a failure
//! on the first.

use vstd::prelude::*;
use vstd::string::StringExecFns;
use crate::digits::{all_digits, dec_value, parse_usize};
use crate::errors::DownloadError;
use crate::requests::{
    content_disposition,
    disposition_of,
    file_url,
    file_url_of,
    token_body,
    token_body_of,
    token_url,
    token_url_of,
    form_content_type,
    form_content_type_of,
    torrent_content_type,
    torrent_content_type_of,
};
use crate::token::{extract_token, json_token_of};

verus! {

/// What one request works with: the torrent identifier, the upstream
/// domain as read from shared state, and the turbo configuration flag.
pub struct RequestSettings {
    pub id: usize,
    pub domain: String,
    pub turbo: Option<bool>,
}

/// The first upstream call: a form-encoded POST.
pub struct TokenRequest {
    pub url: String,
    pub body: String,
    pub content_type: String,
}

/// What follows the first exchange: either the second call, to be made
/// after waiting the given number of seconds, or a failure.
pub enum TokenOutcome {
    Proceed { wait_seconds: u64, file_url: String },
    Fail(DownloadError),
}

/// A successful answer to the handler's caller: the torrent file bytes
/// with their two headers.
pub struct TorrentResponse {
    pub content_type: String,
    pub content_disposition: String,
    pub body: Vec<u8>,
}

/// Whether an HTTP status is in the success range.
pub open spec fn spec_status_ok(status: u16) -> bool {
    200 <= status < 300
}

/// The pacing delay in seconds between the two upstream calls: none in
/// turbo mode, thirty seconds when the flag is false or absent.
pub open spec fn wait_seconds_of(turbo: Option<bool>) -> u64 {
    if turbo == Some(true) {
        0
    } else {
        30
    }
}

/// An explicitly true turbo flag removes the delay entirely.
pub proof fn lemma_no_delay_in_turbo_mode()
    ensures
        wait_seconds_of(Some(true)) == 0,
{
}

/// Without an explicitly true turbo flag, thirty seconds of delay are
/// ordered between the two calls.
pub proof fn lemma_delay_without_turbo(turbo: Option<bool>)
    requires
        turbo != Some(true),
    ensures
        wait_seconds_of(turbo) == 30,
{
}

/// Decides whether an HTTP status counts as success.  A redirect such as
/// 302 does not.
pub fn status_ok(status: u16) -> (r: bool)
    ensures
        r == spec_status_ok(status),
        status == 302 ==> !r,
{
    200 <= status && status < 300
}

/// Reads the torrent identifier from the path segment the route matched.
/// The routing pattern admits only digits, but the number may still
/// overflow the identifier's width.
pub fn parse_id(segment: &str) -> (r: Result<usize, DownloadError>)
    ensures
        match r {
            Ok(id) => segment@.len() > 0 && all_digits(segment@) && id as nat == dec_value(
                segment@,
            ),
            Err(e) => (segment@.len() == 0 || !all_digits(segment@) || dec_value(segment@)
                > usize::MAX) && e == DownloadError::InvalidId,
        },
{
    match parse_usize(segment) {
        Some(id) => Ok(id),
        None => Err(DownloadError::InvalidId),
    }
}

/// Builds the token request for one handled request.
pub fn token_request(s: &RequestSettings) -> (r: TokenRequest)
    ensures
        r.url@ == token_url_of(s.domain@),
        r.body@ == token_body_of(s.id as nat),
        r.content_type@ == form_content_type_of(),
{
    TokenRequest {
        url: token_url(s.domain.as_str()),
        body: token_body(s.id),
        content_type: String::from_str(form_content_type()),
    }
}

/// Decides what follows the token exchange.  A non-success status fails
/// with that status; a success whose body holds no token fails as a
/// missing token; otherwise the file request's URL is built from the
/// token and the pacing delay is ordered by the turbo flag.  In both
/// failure cases the outcome carries no file URL, so no second call is
/// made.
pub fn on_token_response(s: &RequestSettings, status: u16, body: &str) -> (r: TokenOutcome)
    ensures
        !spec_status_ok(status) ==> r == TokenOutcome::Fail(DownloadError::TokenStatus(status)),
        spec_status_ok(status) && json_token_of(body@) is None ==> r == TokenOutcome::Fail(
            DownloadError::TokenMissing,
        ),
        spec_status_ok(status) ==> (json_token_of(body@) matches Some(tok) ==> (r matches
            TokenOutcome::Proceed { wait_seconds, file_url } && wait_seconds == wait_seconds_of(
            s.turbo,
        ) && file_url@ == file_url_of(s.domain@, s.id as nat, tok))),
{
    if !status_ok(status) {
        return TokenOutcome::Fail(DownloadError::TokenStatus(status));
    }
    match extract_token(body) {
        None => TokenOutcome::Fail(DownloadError::TokenMissing),
        Some(token) => {
            let wait = wait_seconds(s.turbo);
            let url = file_url(s.domain.as_str(), s.id, token.as_str());
            TokenOutcome::Proceed { wait_seconds: wait, file_url: url }
        },
    }
}

/// The pacing delay for a turbo flag, as an executable decision.
pub fn wait_seconds(turbo: Option<bool>) -> (r: u64)
    ensures
        r == wait_seconds_of(turbo),
{
    match turbo {
        Some(true) => 0,
        _ => 30,
    }
}

/// Wraps a successful file exchange: the body bytes pass through
/// unchanged, under the torrent content type and an attachment
/// disposition named by the identifier's decimal digits.
pub fn success_response(s: &RequestSettings, body: Vec<u8>) -> (r: TorrentResponse)
    ensures
        r.body@ == body@,
        r.content_type@ == torrent_content_type_of(),
        r.content_disposition@ == disposition_of(s.id as nat),
{
    TorrentResponse {
        content_type: String::from_str(torrent_content_type()),
        content_disposition: content_disposition(s.id),
        body,
    }
}

/// Wraps a failed file exchange: the failure carries the upstream status
/// and the upstream body text.
pub fn file_failure(status: u16, body_text: String) -> (r: DownloadError)
    ensures
        r == (DownloadError::FileStatus { status, body: body_text }),
{
    DownloadError::FileStatus { status, body: body_text }
}

/// Wraps a transport-level failure on either call, keeping the
/// transport's own description.
pub fn transport_failure(description: String) -> (r: DownloadError)
    ensures
        r == DownloadError::Transport(description),
{
    DownloadError::Transport(description)
}

} // verus!
