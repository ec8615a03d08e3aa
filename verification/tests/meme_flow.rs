use fun_api::Error;
use fun_api::meme::Meme;
use fun_api::meme::meme_info_response;
use fun_api::meme::random_meme_response;

const META: &[u8] = br#"{"data":{"url":"https://img.example/a.png","subreddit":"r/funny","score":1234,"id":"abc123","selftext":"look at this","is_nsfw":false}}"#;

#[test]
fn random_meme_has_no_url_and_keeps_bytes() {
    let body = vec![0x89u8, 0x50, 0x4e, 0x47];
    let img = random_meme_response(200, body.clone()).unwrap();
    assert!(img.url.is_none());
    assert_eq!(img.bytes, body);
}

#[test]
fn random_meme_500_is_server_fault() {
    assert!(matches!(random_meme_response(500, vec![1u8]), Err(Error::ServerFault)));
}

#[test]
fn meme_info_decodes_every_field() {
    let info = meme_info_response(200, META.to_vec()).unwrap();
    assert_eq!(info.url, "https://img.example/a.png");
    assert_eq!(info.subreddit, "r/funny");
    assert_eq!(info.score, 1234);
    assert_eq!(info.id, "abc123");
    assert_eq!(info.selftext, "look at this");
    assert!(!info.is_nsfw);
}

#[test]
fn meme_info_missing_url_is_decode_error() {
    let body = br#"{"data":{"subreddit":"r/funny","score":1,"id":"x","selftext":"","is_nsfw":false}}"#.to_vec();
    assert!(matches!(meme_info_response(200, body), Err(Error::Decode(_))));
}

#[test]
fn meme_info_negative_score_is_decode_error() {
    let body = br#"{"data":{"url":"u","subreddit":"s","score":-3,"id":"x","selftext":"","is_nsfw":false}}"#.to_vec();
    assert!(matches!(meme_info_response(200, body), Err(Error::Decode(_))));
}

#[test]
fn meme_info_500_is_server_fault() {
    assert!(matches!(meme_info_response(500, META.to_vec()), Err(Error::ServerFault)));
}

#[test]
fn meme_is_assembled_from_both_responses() {
    let info = meme_info_response(200, META.to_vec()).unwrap();
    let image_bytes = vec![1u8, 2, 3, 4];
    let m: Meme = Meme::from_parts(info, 200, image_bytes.clone()).unwrap();
    assert_eq!(m.image.url.as_deref(), Some("https://img.example/a.png"));
    assert_eq!(m.image.bytes, image_bytes);
    assert_eq!(m.subreddit, "r/funny");
    assert_eq!(m.score, 1234);
    assert_eq!(m.id, "abc123");
    assert_eq!(m.self_text, "look at this");
    assert!(!m.is_nsfw);
}

#[test]
fn meme_assembly_fails_when_image_fetch_fails() {
    let info = meme_info_response(200, META.to_vec()).unwrap();
    assert!(matches!(Meme::from_parts(info, 404, vec![]), Err(Error::UnexpectedStatus(404))));
    let info = meme_info_response(200, META.to_vec()).unwrap();
    assert!(matches!(Meme::from_parts(info, 500, vec![]), Err(Error::ServerFault)));
}
