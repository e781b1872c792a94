//! The handler's failure cases, one variant per condition, each with an
//! exactly specified message text.  The laws at the end show that a
//! status-carrying message embeds the status's decimal digits and that a
//! file-request failure embeds the upstream body text.

use vstd::prelude::*;
use vstd::string::StringExecFns;
use crate::digits::{dec_digits, push_decimal};

verus! {

/// Everything that can go wrong in one handled request.
pub enum DownloadError {
    /// The path segment did not parse into the identifier's integer width.
    InvalidId,
    /// A network-level failure on either upstream call, with the
    /// transport's own description.
    Transport(String),
    /// The token request came back with a non-success status.
    TokenStatus(u16),
    /// The token request succeeded but its JSON body held no string field
    /// named `token`.
    TokenMissing,
    /// The file request came back with a non-success status; carries the
    /// status and the response body text.
    FileStatus { status: u16, body: String },
}

/// The message text of each failure.
pub open spec fn message_of(e: DownloadError) -> Seq<char> {
    match e {
        DownloadError::InvalidId => "Invalid torrent id"@,
        DownloadError::Transport(t) => t@,
        DownloadError::TokenStatus(s) => "Failed to get token: "@ + dec_digits(s as nat),
        DownloadError::TokenMissing => "Token not found in start_download_timer response"@,
        DownloadError::FileStatus { status, body } => "Failed to get torrent file: "@ + dec_digits(
            status as nat,
        ) + " "@ + body@,
    }
}

/// Whether `needle` occurs in `hay` as a contiguous run of characters.
pub open spec fn contains_run(hay: Seq<char>, needle: Seq<char>) -> bool {
    exists|i: int|
        0 <= i && i + needle.len() <= hay.len() && #[trigger] hay.subrange(i, i + needle.len())
            == needle
}

impl DownloadError {
    /// Renders the failure as its message text.
    pub fn message(&self) -> (r: String)
        ensures
            r@ == message_of(*self),
    {
        match self {
            DownloadError::InvalidId => String::from_str("Invalid torrent id"),
            DownloadError::Transport(t) => t.clone(),
            DownloadError::TokenStatus(s) => {
                let mut m = String::from_str("Failed to get token: ");
                push_decimal(&mut m, *s as u64);
                proof {
                    assert(m@ =~= message_of(*self));
                }
                m
            },
            DownloadError::TokenMissing => String::from_str(
                "Token not found in start_download_timer response",
            ),
            DownloadError::FileStatus { status, body } => {
                let mut m = String::from_str("Failed to get torrent file: ");
                push_decimal(&mut m, *status as u64);
                m.append(" ");
                m.append(body.as_str());
                proof {
                    assert(m@ =~= message_of(*self));
                }
                m
            },
        }
    }
}

/// A concatenation's right part occurs in the whole.
proof fn lemma_concat_contains_right(a: Seq<char>, b: Seq<char>)
    ensures
        contains_run(a + b, b),
{
    let h = a + b;
    assert(h.subrange(a.len() as int, (a.len() + b.len()) as int) =~= b);
}

/// A token-request failure's message embeds the decimal digits of the
/// upstream status.
pub proof fn lemma_token_status_message_embeds_status(s: u16)
    ensures
        contains_run(message_of(DownloadError::TokenStatus(s)), dec_digits(s as nat)),
{
    lemma_concat_contains_right("Failed to get token: "@, dec_digits(s as nat));
}

/// A file-request failure's message embeds both the decimal digits of the
/// upstream status and the upstream body text.
pub proof fn lemma_file_status_message_embeds_status_and_body(s: u16, body: String)
    ensures
        contains_run(
            message_of((DownloadError::FileStatus { status: s, body })),
            dec_digits(s as nat),
        ),
        contains_run(message_of((DownloadError::FileStatus { status: s, body })), body@),
{
    let p = "Failed to get torrent file: "@;
    let d = dec_digits(s as nat);
    let sp = " "@;
    let h = message_of((DownloadError::FileStatus { status: s, body }));
    assert(h == p + d + sp + body@);
    assert(h.subrange(p.len() as int, (p.len() + d.len()) as int) =~= d);
    assert(h.subrange((p.len() + d.len() + sp.len()) as int, h.len() as int) =~= body@);
}

} // verus!
