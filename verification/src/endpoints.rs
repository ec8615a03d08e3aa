//! The typed results of the endpoints and the decoders that produce them
//! from an observed HTTP response (status code and body bytes).
//!
//! Every decoder classifies the status first — a body is only interpreted on
//! status 200 — and then turns the body into the endpoint's typed value, or
//! into a `Decode` error when the body does not have the promised shape.
use vstd::prelude::*;

use crate::json::data_arr_str;
use crate::json::data_str;
use crate::json::get_data_arr_str;
use crate::json::get_data_str;
use crate::json::json_model;
use crate::json::parse_json;
use crate::Error;
use crate::classify_response;

verus! {

/// What the plain-text endpoints answer: the body decoded as UTF-8, when it
/// is UTF-8.
pub open spec fn text_of(bytes: Seq<u8>) -> Option<Seq<char>> {
    if vstd::utf8::valid_utf8(bytes) {
        Some(vstd::utf8::decode_utf8(bytes))
    } else {
        None
    }
}

/// Relies on `String::from_utf8`: succeeds exactly on UTF-8 encoded bytes
/// and returns the characters they encode.
#[verifier::external_body]
fn utf8_to_string(bytes: Vec<u8>) -> (r: Option<String>)
    ensures
        r is Some <==> vstd::utf8::valid_utf8(bytes@),
        (r matches Some(s) ==> s@ == vstd::utf8::decode_utf8(bytes@)),
{
    String::from_utf8(bytes).ok()
}

/// Decodes the response of a plain-text endpoint (8-ball, truth, dare, fact,
/// roast, joke, compliment): the body read as a UTF-8 string.
pub fn text_response(status: u16, body: Vec<u8>) -> (r: Result<String, Error>)
    ensures
        status == 500 ==> r == Err::<String, Error>(Error::ServerFault),
        status != 200 && status != 500 ==> r == Err::<String, Error>(
            Error::UnexpectedStatus(status),
        ),
        status == 200 ==> (match text_of(body@) {
            Some(t) => (r matches Ok(s) && s@ == t),
            None => (r matches Err(e) && e is Decode),
        }),
{
    let body = match classify_response(status, body) {
        Ok(b) => b,
        Err(e) => return Err(e),
    };
    match utf8_to_string(body) {
        Some(s) => Ok(s),
        None => Err(Error::Decode("response body is not valid UTF-8".to_owned())),
    }
}

/// A trivia question together with its answer.
#[derive(Debug)]
pub struct Trivia {
    pub ques: String,
    pub ans: String,
}

/// What the trivia endpoint answers: the strings under `data.Question` and
/// `data.Answer`, when the body is JSON that has both.
pub open spec fn trivia_of(bytes: Seq<u8>) -> Option<(Seq<char>, Seq<char>)> {
    match json_model(bytes) {
        Some(doc) => match (data_str(doc, "Question"@), data_str(doc, "Answer"@)) {
            (Some(q), Some(a)) => Some((q, a)),
            _ => None,
        },
        None => None,
    }
}

impl Trivia {
    /// Decodes the trivia endpoint's response into a question/answer pair.
    pub fn from_response(status: u16, body: Vec<u8>) -> (r: Result<Trivia, Error>)
        ensures
            status == 500 ==> r == Err::<Trivia, Error>(Error::ServerFault),
            status != 200 && status != 500 ==> r == Err::<Trivia, Error>(
                Error::UnexpectedStatus(status),
            ),
            status == 200 ==> (match trivia_of(body@) {
                Some(qa) => (r matches Ok(t) && t.ques@ == qa.0 && t.ans@ == qa.1),
                None => (r matches Err(e) && e is Decode),
            }),
    {
        let body = match classify_response(status, body) {
            Ok(b) => b,
            Err(e) => return Err(e),
        };
        let doc = match parse_json(body.as_slice()) {
            Some(v) => v,
            None => return Err(Error::Decode("response body is not valid JSON".to_owned())),
        };
        let ques = match get_data_str(&doc, "Question") {
            Some(s) => s,
            None => return Err(Error::Decode("missing or invalid field: Question".to_owned())),
        };
        let ans = match get_data_str(&doc, "Answer") {
            Some(s) => s,
            None => return Err(Error::Decode("missing or invalid field: Answer".to_owned())),
        };
        Ok(Trivia { ques, ans })
    }
}

/// What the would-you-rather endpoint answers: the first two strings of the
/// array under `data."Would you rather"`, in that order, when the body is
/// JSON that has them.
pub open spec fn wyr_of(bytes: Seq<u8>) -> Option<(Seq<char>, Seq<char>)> {
    match json_model(bytes) {
        Some(doc) => match (
            data_arr_str(doc, "Would you rather"@, 0),
            data_arr_str(doc, "Would you rather"@, 1),
        ) {
            (Some(a), Some(b)) => Some((a, b)),
            _ => None,
        },
        None => None,
    }
}

/// Decodes the would-you-rather endpoint's response into its two options,
/// first option before second.
pub fn would_you_rather_response(status: u16, body: Vec<u8>) -> (r: Result<
    (String, String),
    Error,
>)
    ensures
        status == 500 ==> r == Err::<(String, String), Error>(Error::ServerFault),
        status != 200 && status != 500 ==> r == Err::<(String, String), Error>(
            Error::UnexpectedStatus(status),
        ),
        status == 200 ==> (match wyr_of(body@) {
            Some(ab) => (r matches Ok(p) && p.0@ == ab.0 && p.1@ == ab.1),
            None => (r matches Err(e) && e is Decode),
        }),
{
    let body = match classify_response(status, body) {
        Ok(b) => b,
        Err(e) => return Err(e),
    };
    let doc = match parse_json(body.as_slice()) {
        Some(v) => v,
        None => return Err(Error::Decode("response body is not valid JSON".to_owned())),
    };
    let first = match get_data_arr_str(&doc, "Would you rather", 0) {
        Some(s) => s,
        None => return Err(
            Error::Decode("missing or invalid field: Would you rather".to_owned()),
        ),
    };
    let second = match get_data_arr_str(&doc, "Would you rather", 1) {
        Some(s) => s,
        None => return Err(
            Error::Decode("missing or invalid field: Would you rather".to_owned()),
        ),
    };
    Ok((first, second))
}

/// What the truth-or-dare endpoint answers: the strings under `data.Truth`
/// and `data.Dare`, in that order, when the body is JSON that has both.
pub open spec fn truth_or_dare_of(bytes: Seq<u8>) -> Option<(Seq<char>, Seq<char>)> {
    match json_model(bytes) {
        Some(doc) => match (data_str(doc, "Truth"@), data_str(doc, "Dare"@)) {
            (Some(t), Some(d)) => Some((t, d)),
            _ => None,
        },
        None => None,
    }
}

/// Decodes the truth-or-dare endpoint's response into its two prompts, the
/// truth before the dare.
pub fn truth_or_dare_response(status: u16, body: Vec<u8>) -> (r: Result<(String, String), Error>)
    ensures
        status == 500 ==> r == Err::<(String, String), Error>(Error::ServerFault),
        status != 200 && status != 500 ==> r == Err::<(String, String), Error>(
            Error::UnexpectedStatus(status),
        ),
        status == 200 ==> (match truth_or_dare_of(body@) {
            Some(td) => (r matches Ok(p) && p.0@ == td.0 && p.1@ == td.1),
            None => (r matches Err(e) && e is Decode),
        }),
{
    let body = match classify_response(status, body) {
        Ok(b) => b,
        Err(e) => return Err(e),
    };
    let doc = match parse_json(body.as_slice()) {
        Some(v) => v,
        None => return Err(Error::Decode("response body is not valid JSON".to_owned())),
    };
    let truth = match get_data_str(&doc, "Truth") {
        Some(s) => s,
        None => return Err(Error::Decode("missing or invalid field: Truth".to_owned())),
    };
    let dare = match get_data_str(&doc, "Dare") {
        Some(s) => s,
        None => return Err(Error::Decode("missing or invalid field: Dare".to_owned())),
    };
    Ok((truth, dare))
}

} // verus!
