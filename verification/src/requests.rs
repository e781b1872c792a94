//! The texts the handler sends upstream and back to its caller: the two
//! request URLs, the form body of the first call, and the response headers
//! of a successful download.  Each builder's contract pins the produced
//! string to a spec-level concatenation, character for character.

use vstd::prelude::*;
use vstd::string::StringExecFns;
use crate::digits::{dec_digits, push_decimal};

verus! {

/// The URL of the first upstream call, which asks for a download token.
pub open spec fn token_url_of(domain: Seq<char>) -> Seq<char> {
    "https://"@ + domain + "/engine/start_download_timer"@
}

/// The form body of the first upstream call.
pub open spec fn token_body_of(id: nat) -> Seq<char> {
    "torrent_id="@ + dec_digits(id)
}

/// The content type the first upstream call is sent with.
pub open spec fn form_content_type_of() -> Seq<char> {
    "application/x-www-form-urlencoded; charset=UTF-8"@
}

/// The URL of the second upstream call, which fetches the torrent file.
pub open spec fn file_url_of(domain: Seq<char>, id: nat, token: Seq<char>) -> Seq<char> {
    "https://"@ + domain + "/engine/download_torrent?id="@ + dec_digits(id) + "&token="@ + token
}

/// The content type of a successful response to the handler's caller.
pub open spec fn torrent_content_type_of() -> Seq<char> {
    "application/x-bittorrent"@
}

/// The Content-Disposition header of a successful response: an attachment
/// named by the torrent identifier's decimal digits.
pub open spec fn disposition_of(id: nat) -> Seq<char> {
    "attachment; filename=\""@ + dec_digits(id) + ".torrent\""@
}

/// Builds the token-request URL for a domain.
pub fn token_url(domain: &str) -> (r: String)
    ensures
        r@ == token_url_of(domain@),
{
    let mut url = String::from_str("https://");
    url.append(domain);
    url.append("/engine/start_download_timer");
    proof {
        assert(url@ =~= token_url_of(domain@));
    }
    url
}

/// Builds the form body of the token request for an identifier.
pub fn token_body(id: usize) -> (r: String)
    ensures
        r@ == token_body_of(id as nat),
{
    let mut body = String::from_str("torrent_id=");
    push_decimal(&mut body, id as u64);
    proof {
        assert(body@ =~= token_body_of(id as nat));
    }
    body
}

/// The content type string of the token request.
pub fn form_content_type() -> (r: &'static str)
    ensures
        r@ == form_content_type_of(),
{
    "application/x-www-form-urlencoded; charset=UTF-8"
}

/// Builds the file-download URL for a domain, an identifier and a token.
pub fn file_url(domain: &str, id: usize, token: &str) -> (r: String)
    ensures
        r@ == file_url_of(domain@, id as nat, token@),
{
    let mut url = String::from_str("https://");
    url.append(domain);
    url.append("/engine/download_torrent?id=");
    push_decimal(&mut url, id as u64);
    url.append("&token=");
    url.append(token);
    proof {
        assert(url@ =~= file_url_of(domain@, id as nat, token@));
    }
    url
}

/// The content type string of a successful response.
pub fn torrent_content_type() -> (r: &'static str)
    ensures
        r@ == torrent_content_type_of(),
{
    "application/x-bittorrent"
}

/// Builds the Content-Disposition header value for an identifier.
pub fn content_disposition(id: usize) -> (r: String)
    ensures
        r@ == disposition_of(id as nat),
{
    let mut h = String::from_str("attachment; filename=\"");
    push_decimal(&mut h, id as u64);
    h.append(".torrent\"");
    proof {
        assert(h@ =~= disposition_of(id as nat));
    }
    h
}

} // verus!
