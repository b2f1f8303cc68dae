//! The endpoint of a session: the venue's address, checked and brought into
//! its normal form before a connection is opened.

use vstd::prelude::*;
use vstd::utf8::encode_utf8;

verus! {

/// Most bytes that the symbol of a session may have.
pub const MAX_SYMBOL_BYTES: usize = 20;

/// `url::ParseError`, the error of `url::Url::parse`. It is only passed
/// on: nothing is claimed of what it holds.
#[verifier::external_type_specification]
#[verifier::external_body]
pub struct ExUrlParseError(url::ParseError);

/// The serialization of the URL that `url::Url::parse` reads from a text,
/// where it reads one.
pub uninterp spec fn url_serialization(input: Seq<char>) -> Option<Seq<char>>;

/// `url::Url::parse`, followed by the conversion of the URL into its
/// serialization. The contract claims only that success and the text that
/// comes back are a function of the input, which it names
/// `url_serialization`; nothing is claimed of which texts are URLs.
#[verifier::external_body]
fn parse_url(input: &str) -> (r: Result<String, url::ParseError>)
    ensures
        r.is_ok() == url_serialization(input@).is_some(),
        r.is_ok() ==> Some(r.unwrap()@) == url_serialization(input@),
{
    match url::Url::parse(input) {
        Ok(parsed) => Ok(String::from(parsed)),
        Err(error) => Err(error),
    }
}

/// Why a session cannot open its connection.
#[derive(Clone, Copy, Debug, PartialEq, Eq, Structural)]
pub enum SessionError {
    /// The symbol is empty or longer than `MAX_SYMBOL_BYTES`.
    InvalidSymbol,
    /// The configured address is no URL.
    InvalidUrl,
}

/// Whether a symbol has between one and `MAX_SYMBOL_BYTES` bytes.
pub open spec fn symbol_fits(symbol: Seq<char>) -> bool {
    0 < encode_utf8(symbol).len() <= MAX_SYMBOL_BYTES
}

/// The endpoint of the session of `symbol`, given what the address reads
/// as: the symbol is checked first, then the address.
pub open spec fn endpoint_of(symbol: Seq<char>, serialization: Option<Seq<char>>) -> Result<
    Seq<char>,
    SessionError,
> {
    if !symbol_fits(symbol) {
        Err(SessionError::InvalidSymbol)
    } else {
        match serialization {
            Some(text) => Ok(text),
            None => Err(SessionError::InvalidUrl),
        }
    }
}

/// Whether a result of texts matches one of character sequences.
pub open spec fn same_outcome(r: Result<String, SessionError>, expected: Result<Seq<char>, SessionError>) -> bool {
    match (r, expected) {
        (Ok(text), Ok(wanted)) => text@ == wanted,
        (Err(e), Err(wanted)) => e == wanted,
        _ => false,
    }
}

/// The endpoint of the session of `symbol`, given the serialization of its
/// address, where the address is a URL.
pub fn endpoint_from(symbol: &str, serialization: Option<String>) -> (r: Result<String, SessionError>)
    ensures
        same_outcome(
            r,
            endpoint_of(
                symbol@,
                match serialization {
                    Some(text) => Some(text@),
                    None => None,
                },
            ),
        ),
{
    let bytes: usize = symbol.as_bytes().len();
    if bytes == 0 || bytes > MAX_SYMBOL_BYTES {
        return Err(SessionError::InvalidSymbol);
    }
    match serialization {
        Some(text) => Ok(text),
        None => Err(SessionError::InvalidUrl),
    }
}

/// The endpoint that the session of `symbol` connects to: the configured
/// address in the normal form of a URL.
pub fn session_endpoint(symbol: &str, websocket_url: &str) -> (r: Result<String, SessionError>)
    ensures
        same_outcome(r, endpoint_of(symbol@, url_serialization(websocket_url@))),
{
    let serialization = match parse_url(websocket_url) {
        Ok(text) => Some(text),
        Err(_) => None,
    };
    endpoint_from(symbol, serialization)
}

/// The text of a session error.
pub fn session_error_message(error: SessionError) -> (r: String)
    ensures
        r@ == match error {
            SessionError::InvalidSymbol => "Invalid symbol: must be between 1-20 characters"@,
            SessionError::InvalidUrl => "Invalid WebSocket URL"@,
        },
{
    match error {
        SessionError::InvalidSymbol => String::from_str("Invalid symbol: must be between 1-20 characters"),
        SessionError::InvalidUrl => String::from_str("Invalid WebSocket URL"),
    }
}

} // verus!
