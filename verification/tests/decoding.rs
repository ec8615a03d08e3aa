use fun_api::Error;
use fun_api::endpoints::Trivia;
use fun_api::endpoints::text_response;
use fun_api::endpoints::truth_or_dare_response;
use fun_api::endpoints::would_you_rather_response;

#[test]
fn text_decodes_utf8_body() {
    // Multi-byte characters: the result must be the decoded string, not the
    // raw bytes.
    let body = "caf\u{e9} \u{20ac}".as_bytes().to_vec();
    assert_eq!(text_response(200, body), Ok("caf\u{e9} \u{20ac}".to_string()));
}

#[test]
fn text_rejects_invalid_utf8() {
    let r = text_response(200, vec![0xff, 0xfe, 0x41]);
    assert!(matches!(r, Err(Error::Decode(_))));
}

#[test]
fn text_500_is_server_fault() {
    assert_eq!(text_response(500, b"hello".to_vec()), Err(Error::ServerFault));
}

#[test]
fn text_other_status_is_unexpected() {
    assert_eq!(text_response(403, b"hello".to_vec()), Err(Error::UnexpectedStatus(403)));
}

#[test]
fn trivia_decodes_question_and_answer() {
    let body = br#"{"data":{"Question":"What is 2+2?","Answer":"4"}}"#.to_vec();
    let t: Trivia = Trivia::from_response(200, body).unwrap();
    assert_eq!(t.ques, "What is 2+2?");
    assert_eq!(t.ans, "4");
}

#[test]
fn trivia_missing_key_is_decode_error() {
    let body = br#"{"data":{"Question":"What is 2+2?"}}"#.to_vec();
    assert!(matches!(Trivia::from_response(200, body), Err(Error::Decode(_))));
}

#[test]
fn trivia_wrongly_typed_key_is_decode_error() {
    let body = br#"{"data":{"Question":"Q","Answer":17}}"#.to_vec();
    assert!(matches!(Trivia::from_response(200, body), Err(Error::Decode(_))));
}

#[test]
fn trivia_malformed_json_is_decode_error() {
    let body = b"{not json".to_vec();
    assert!(matches!(Trivia::from_response(200, body), Err(Error::Decode(_))));
}

#[test]
fn trivia_500_is_server_fault() {
    let body = br#"{"data":{"Question":"Q","Answer":"A"}}"#.to_vec();
    assert_eq!(Trivia::from_response(500, body).unwrap_err(), Error::ServerFault);
}

#[test]
fn would_you_rather_keeps_option_order() {
    let body = br#"{"data":{"Would you rather":["be a bird","be a fish"]}}"#.to_vec();
    let (a, b) = would_you_rather_response(200, body).unwrap();
    assert_eq!(a, "be a bird");
    assert_eq!(b, "be a fish");
}

#[test]
fn would_you_rather_short_array_is_decode_error() {
    let body = br#"{"data":{"Would you rather":["only one"]}}"#.to_vec();
    assert!(matches!(would_you_rather_response(200, body), Err(Error::Decode(_))));
}

#[test]
fn would_you_rather_500_is_server_fault() {
    let body = br#"{"data":{"Would you rather":["a","b"]}}"#.to_vec();
    assert_eq!(would_you_rather_response(500, body), Err(Error::ServerFault));
}

#[test]
fn truth_or_dare_keeps_truth_before_dare() {
    // The key order in the payload is reversed on purpose: the result must
    // follow the fixed keys, not the textual order.
    let body = br#"{"data":{"Dare":"sing","Truth":"confess"}}"#.to_vec();
    let (truth, dare) = truth_or_dare_response(200, body).unwrap();
    assert_eq!(truth, "confess");
    assert_eq!(dare, "sing");
}

#[test]
fn truth_or_dare_missing_key_is_decode_error() {
    let body = br#"{"data":{"Truth":"confess"}}"#.to_vec();
    assert!(matches!(truth_or_dare_response(200, body), Err(Error::Decode(_))));
}

#[test]
fn payload_without_data_object_is_decode_error() {
    let body = br#"{"Question":"Q","Answer":"A"}"#.to_vec();
    assert!(matches!(Trivia::from_response(200, body), Err(Error::Decode(_))));
}
