//! The meme pipeline: the one two-stage flow of the API.
//!
//! Fetching a meme takes two requests. The first returns JSON metadata whose
//! `data.url` names the image; the second fetches the image bytes from that
//! URL. The decoders here handle each stage's response: the metadata decoder
//! yields a [`MemeInfo`], and the assembler combines it with the image
//! response into a complete [`Meme`] — a meme is never handed out with only
//! part of its fields filled in.
use vstd::prelude::*;

use crate::json::data_bool;
use crate::json::data_str;
use crate::json::data_u64;
use crate::json::get_data_bool;
use crate::json::get_data_str;
use crate::json::get_data_u64;
use crate::json::json_model;
use crate::json::parse_json;
use crate::Error;
use crate::classify_response;

verus! {

/// An image fetched from the API: the raw bytes, and the URL they came from
/// when the image was part of a meme (`None` for the random-image endpoint).
#[derive(Debug)]
pub struct Image {
    pub url: Option<String>,
    pub bytes: Vec<u8>,
}

/// Decodes the random-meme endpoint's response: the body is the image
/// itself, so the image carries no URL.
pub fn random_meme_response(status: u16, body: Vec<u8>) -> (r: Result<Image, Error>)
    ensures
        status == 500 ==> r == Err::<Image, Error>(Error::ServerFault),
        status != 200 && status != 500 ==> r == Err::<Image, Error>(
            Error::UnexpectedStatus(status),
        ),
        status == 200 ==> (r matches Ok(img) && img.url is None && img.bytes@ == body@),
{
    let body = match classify_response(status, body) {
        Ok(b) => b,
        Err(e) => return Err(e),
    };
    Ok(Image { url: None, bytes: body })
}

/// The metadata fields of one meme, as the spec level sees them.
pub struct MemeInfoV {
    pub url: Seq<char>,
    pub subreddit: Seq<char>,
    pub score: u64,
    pub id: Seq<char>,
    pub selftext: Seq<char>,
    pub is_nsfw: bool,
}

/// The metadata the meme endpoint returns about one meme, including the URL
/// its image is to be fetched from.
#[derive(Debug)]
pub struct MemeInfo {
    pub url: String,
    pub subreddit: String,
    pub score: u64,
    pub id: String,
    pub selftext: String,
    pub is_nsfw: bool,
}

impl View for MemeInfo {
    type V = MemeInfoV;

    open spec fn view(&self) -> MemeInfoV {
        MemeInfoV {
            url: self.url@,
            subreddit: self.subreddit@,
            score: self.score,
            id: self.id@,
            selftext: self.selftext@,
            is_nsfw: self.is_nsfw,
        }
    }
}

/// What the meme endpoint answers: the six metadata fields under `data`,
/// when the body is JSON that has all of them with the right types.
pub open spec fn meme_info_of(bytes: Seq<u8>) -> Option<MemeInfoV> {
    match json_model(bytes) {
        Some(doc) => match (
            data_str(doc, "url"@),
            data_str(doc, "subreddit"@),
            data_u64(doc, "score"@),
            data_str(doc, "id"@),
            data_str(doc, "selftext"@),
            data_bool(doc, "is_nsfw"@),
        ) {
            (Some(url), Some(subreddit), Some(score), Some(id), Some(selftext), Some(is_nsfw)) => {
                Some(MemeInfoV { url, subreddit, score, id, selftext, is_nsfw })
            },
            _ => None,
        },
        None => None,
    }
}

/// Decodes the meme endpoint's metadata response. The returned metadata
/// carries the URL the image must then be fetched from; nothing of the meme
/// is built before that second fetch succeeds.
pub fn meme_info_response(status: u16, body: Vec<u8>) -> (r: Result<MemeInfo, Error>)
    ensures
        status == 500 ==> r == Err::<MemeInfo, Error>(Error::ServerFault),
        status != 200 && status != 500 ==> r == Err::<MemeInfo, Error>(
            Error::UnexpectedStatus(status),
        ),
        status == 200 ==> (match meme_info_of(body@) {
            Some(iv) => (r matches Ok(info) && info@ == iv),
            None => (r matches Err(e) && e is Decode),
        }),
{
    let body = match classify_response(status, body) {
        Ok(b) => b,
        Err(e) => return Err(e),
    };
    let doc = match parse_json(body.as_slice()) {
        Some(v) => v,
        None => return Err(Error::Decode("response body is not valid JSON".to_owned())),
    };
    let url = match get_data_str(&doc, "url") {
        Some(s) => s,
        None => return Err(Error::Decode("missing or invalid field: url".to_owned())),
    };
    let subreddit = match get_data_str(&doc, "subreddit") {
        Some(s) => s,
        None => return Err(Error::Decode("missing or invalid field: subreddit".to_owned())),
    };
    let score = match get_data_u64(&doc, "score") {
        Some(n) => n,
        None => return Err(Error::Decode("missing or invalid field: score".to_owned())),
    };
    let id = match get_data_str(&doc, "id") {
        Some(s) => s,
        None => return Err(Error::Decode("missing or invalid field: id".to_owned())),
    };
    let selftext = match get_data_str(&doc, "selftext") {
        Some(s) => s,
        None => return Err(Error::Decode("missing or invalid field: selftext".to_owned())),
    };
    let is_nsfw = match get_data_bool(&doc, "is_nsfw") {
        Some(b) => b,
        None => return Err(Error::Decode("missing or invalid field: is_nsfw".to_owned())),
    };
    Ok(MemeInfo { url, subreddit, score, id, selftext, is_nsfw })
}

/// A meme: its image together with the post's metadata. A meme's image
/// always records the URL it was fetched from.
#[derive(Debug)]
pub struct Meme {
    pub image: Image,
    pub subreddit: String,
    pub score: u64,
    pub id: String,
    pub self_text: String,
    pub is_nsfw: bool,
}

/// A meme built from metadata `iv` and image bytes `img`: every field comes
/// from the metadata, and the image holds the metadata's URL and exactly the
/// fetched bytes.
pub open spec fn meme_from(m: Meme, iv: MemeInfoV, img: Seq<u8>) -> bool {
    &&& m.image.url matches Some(u) && u@ == iv.url
    &&& m.image.bytes@ == img
    &&& m.subreddit@ == iv.subreddit
    &&& m.score == iv.score
    &&& m.id@ == iv.id
    &&& m.self_text@ == iv.selftext
    &&& m.is_nsfw == iv.is_nsfw
}

impl Meme {
    /// Assembles the meme from its decoded metadata and the response of the
    /// image fetch. Fails without building anything unless the image fetch
    /// returned status 200.
    pub fn from_parts(info: MemeInfo, status: u16, body: Vec<u8>) -> (r: Result<Meme, Error>)
        ensures
            status == 500 ==> r == Err::<Meme, Error>(Error::ServerFault),
            status != 200 && status != 500 ==> r == Err::<Meme, Error>(
                Error::UnexpectedStatus(status),
            ),
            status == 200 ==> (r matches Ok(m) && meme_from(m, info@, body@)),
    {
        let body = match classify_response(status, body) {
            Ok(b) => b,
            Err(e) => return Err(e),
        };
        let image = Image { url: Some(info.url), bytes: body };
        Ok(
            Meme {
                image,
                subreddit: info.subreddit,
                score: info.score,
                id: info.id,
                self_text: info.selftext,
                is_nsfw: info.is_nsfw,
            },
        )
    }
}

/// A meme is never partially populated: a meme built from decoded metadata
/// and fetched image bytes carries the metadata's URL in its image, exactly
/// the fetched bytes, and every metadata field; and its image's URL and
/// bytes are non-empty whenever the upstream supplied them non-empty.
pub proof fn lemma_meme_fully_populated(meta: Seq<u8>, iv: MemeInfoV, m: Meme, img: Seq<u8>)
    requires
        meme_info_of(meta) == Some(iv),
        meme_from(m, iv, img),
    ensures
        m.image.url matches Some(u) && u@ == iv.url,
        m.image.bytes@ == img,
        m.subreddit@ == iv.subreddit,
        m.score == iv.score,
        m.id@ == iv.id,
        m.self_text@ == iv.selftext,
        m.is_nsfw == iv.is_nsfw,
        iv.url.len() > 0 ==> (m.image.url matches Some(u) && u@.len() > 0),
        img.len() > 0 ==> m.image.bytes@.len() > 0,
{
}

} // verus!
