use vstd::prelude::*;
use vstd::string::*;

use crate::error::{error_text, Error};
use crate::socket::Socket;
use crate::text::{append_decimal, decimal};

verus! {

/// The websocket port that serves a battle: battles numbered 19000 to 99999
/// are spread over ports 801 to 809 in blocks of 9000; all others use 800.
pub open spec fn battle_port(battle_id: int) -> int {
    if 19000 <= battle_id <= 99999 {
        801 + (battle_id - 19000) / 9000
    } else {
        800
    }
}

/// The address of the websocket that serves `battle_id` on `host`.
pub open spec fn endpoint_text(host: Seq<char>, battle_id: int) -> Seq<char> {
    "wss://"@ + host + "/wss_"@ + decimal(battle_port(battle_id))
}

/// Returns the address of the websocket that serves `battle_id` on `host`.
pub fn endpoint(host: &str, battle_id: i32) -> (url: String)
    ensures
        url@ == endpoint_text(host@, battle_id as int),
{
    let mut url = String::from_str("wss://");
    url.append(host);
    url.append("/wss_");
    append_decimal(&mut url, Socket::get_port(battle_id));
    url
}

#[verifier::external_type_specification]
#[verifier::external_body]
pub struct ExUri(http::Uri);

/// The URI that `http::Uri::from_str` parses from a text, or `None` where it
/// refuses the text.
pub uninterp spec fn uri_from_text(text: Seq<char>) -> Option<http::Uri>;

/// The `Display` text of the `InvalidUri` error with which `http::Uri::from_str`
/// refuses a text.
pub uninterp spec fn uri_error_text(text: Seq<char>) -> Seq<char>;

/// Calls `http::Uri::from_str`, and on failure the `Display` of its
/// `InvalidUri` error. Trusted: the parse depends on the text alone, and so
/// does the error's message (a fixed text chosen by the kind of fault the
/// parser finds); `uri_from_text` and `uri_error_text` name the two. Which texts
/// are refused, and with which message, is the outside parser's affair and is
/// not stated here.
#[verifier::external_body]
fn parse_uri(text: &str) -> (res: Result<http::Uri, String>)
    ensures
        match res {
            Ok(uri) => uri_from_text(text@) == Some(uri),
            Err(msg) => uri_from_text(text@) is None && msg@ == uri_error_text(text@),
        },
{
    match text.parse::<http::Uri>() {
        Ok(uri) => Ok(uri),
        Err(e) => Err(e.to_string()),
    }
}

/// Parses the websocket address of `battle_id` on `host`; an address that
/// does not parse is `Error::InvalidUri`, with the parser's message.
pub fn endpoint_uri(host: &str, battle_id: i32) -> (res: Result<http::Uri, Error>)
    ensures
        match res {
            Ok(uri) => uri_from_text(endpoint_text(host@, battle_id as int)) == Some(uri),
            Err(e) => uri_from_text(endpoint_text(host@, battle_id as int)) is None
                && (e is InvalidUri)
                && error_text(e) == uri_error_text(endpoint_text(host@, battle_id as int)),
        },
{
    let url = endpoint(host, battle_id);
    match parse_uri(url.as_str()) {
        Ok(uri) => Ok(uri),
        Err(msg) => Err(Error::InvalidUri(msg)),
    }
}

} // verus!
