//! Client-side logic for a small "fun content" HTTP API: classification of
//! HTTP responses, JSON decoding of endpoint payloads, and assembly of the
//! typed results (memes, trivia, truth-or-dare, and plain-text answers).
//!
//! The library itself performs no I/O: it turns an observed HTTP response
//! (status code and body bytes) into a typed value or a classified error.
use vstd::prelude::*;

pub mod endpoints;
pub mod json;
pub mod meme;

verus! {

/// Everything that can go wrong while fetching and decoding a response.
#[derive(Debug, Clone, PartialEq, Eq)]
pub enum Error {
    /// The upstream server reported an internal fault (HTTP status 500).
    ServerFault,
    /// The upstream server answered with an unexpected HTTP status code.
    UnexpectedStatus(u16),
    /// The request could not be carried out at the network layer at all.
    Network(String),
    /// The response body could not be decoded into the expected shape.
    Decode(String),
}

/// Normalizes the outcome of one HTTP GET: the body is handed back on
/// status 200, every other status becomes a classified error.
pub fn classify_response(status: u16, body: Vec<u8>) -> (r: Result<Vec<u8>, Error>)
    ensures
        status == 200 ==> (r matches Ok(b) && b@ == body@),
        status == 500 ==> r == Err::<Vec<u8>, Error>(Error::ServerFault),
        status != 200 && status != 500 ==> r == Err::<Vec<u8>, Error>(
            Error::UnexpectedStatus(status),
        ),
{
    if status == 200 {
        Ok(body)
    } else if status == 500 {
        Err(Error::ServerFault)
    } else {
        Err(Error::UnexpectedStatus(status))
    }
}

} // verus!
