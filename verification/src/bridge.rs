//! The calls that the library makes into other crates and into std, each
//! with the contract that the proofs rely on.
use vstd::prelude::*;

verus! {

/// A Block Kit block of a message (`slack_morphism::blocks::SlackBlock`).
#[verifier::external_type_specification]
#[verifier::external_body]
pub struct ExSlackBlock(slack_morphism::blocks::SlackBlock);

/// What the API tells of a channel (`slack_morphism::SlackChannelInfo`).
#[verifier::external_type_specification]
#[verifier::external_body]
pub struct ExSlackChannelInfo(slack_morphism::SlackChannelInfo);

/// A JSON (de)serialisation failure (`serde_json::Error`).
#[verifier::external_type_specification]
#[verifier::external_body]
pub struct ExSerdeJsonError(serde_json::Error);

/// A failed HTTP request (`reqwest::Error`).
#[verifier::external_type_specification]
#[verifier::external_body]
pub struct ExReqwestError(reqwest::Error);

/// A failed file access (`std::io::Error`).
#[verifier::external_type_specification]
#[verifier::external_body]
pub struct ExIoError(std::io::Error);

/// The JSON text that `serde_json::to_string` makes of a list of blocks, or
/// `None` where it fails.
pub uninterp spec fn blocks_json(blocks: Seq<slack_morphism::blocks::SlackBlock>) -> Option<Seq<char>>;

/// `serde_json::to_string` on a list of blocks. Its result is a function of
/// the blocks alone, named `blocks_json`; nothing more is stated of it.
#[verifier::external_body]
pub(crate) fn blocks_to_json(blocks: &Vec<slack_morphism::blocks::SlackBlock>) -> (r: Result<
    String,
    serde_json::Error,
>)
    ensures
        r is Ok <==> blocks_json(blocks@) is Some,
        r matches Ok(s) ==> Some(s@) == blocks_json(blocks@),
{
    serde_json::to_string(blocks)
}

/// The JSON string literal that `serde_json` writes for a text (quotes
/// around it, special characters escaped), or `None` where it reports an
/// error.
pub uninterp spec fn json_quoted(s: Seq<char>) -> Option<Seq<char>>;

/// `serde_json::to_string` on a `str`: its result is the named JSON literal
/// of the text; the exact escaping is not restated here.
#[verifier::external_body]
pub(crate) fn json_quote(s: &str) -> (r: Result<String, serde_json::Error>)
    ensures
        r is Ok <==> json_quoted(s@) is Some,
        r matches Ok(q) ==> Some(q@) == json_quoted(s@),
{
    serde_json::to_string(s)
}

/// `uuid::Uuid::new_v4().to_string()`: a fresh random id. Its text is the
/// hyphenated form, 36 characters long; which id comes out is left open.
#[verifier::external_body]
pub(crate) fn new_v4_string() -> (r: String)
    ensures
        r@.len() == 36,
{
    uuid::Uuid::new_v4().to_string()
}

/// `rand::random_range(0..65536)`: a random integer of that range.
#[verifier::external_body]
pub(crate) fn random_ping_id() -> (r: u32)
    ensures
        r < 65536,
{
    rand::random_range(0..65536u32)
}

/// The lower-case form that `str::to_lowercase` gives of a text.
pub uninterp spec fn lowercase(s: Seq<char>) -> Seq<char>;

/// `str::to_lowercase`. Its result is a function of the text alone, named
/// `lowercase`; the Unicode case tables it follows are not stated.
#[verifier::external_body]
pub(crate) fn to_lowercase(s: &str) -> (r: String)
    ensures
        r@ == lowercase(s@),
{
    s.to_lowercase()
}

/// `tokio_retry::strategy::jitter` on a wait of `millis` milliseconds: a
/// random fraction of it. Nothing is stated of the result, which is random.
#[verifier::external_body]
pub(crate) fn jitter_millis(millis: u64) -> (r: std::time::Duration) {
    tokio_retry::strategy::jitter(std::time::Duration::from_millis(millis))
}

/// The text that `urlencoding::decode` makes of a percent-encoded text, or
/// `None` where the decoded bytes are not UTF-8.
pub uninterp spec fn url_decoded(s: Seq<char>) -> Option<Seq<char>>;

/// `urlencoding::decode`, as an owned string. Its result is a function of
/// the text alone, named `url_decoded`; the source returns a text without
/// `%` unchanged, and that is stated. How `%xx` sequences are decoded is
/// not stated.
#[verifier::external_body]
pub(crate) fn url_decode(s: &str) -> (r: Option<String>)
    ensures
        r.is_some() == url_decoded(s@).is_some(),
        r matches Some(d) ==> Some(d@) == url_decoded(s@),
        !s@.contains('%') ==> r.is_some() && r.unwrap()@ == s@,
{
    match urlencoding::decode(s) {
        Ok(d) => Some(d.into_owned()),
        Err(_) => None,
    }
}

/// The text that `String::from_utf8_lossy` makes of bytes.
pub uninterp spec fn utf8_lossy_text(b: Seq<u8>) -> Seq<char>;

/// `String::from_utf8_lossy`, as an owned string. Its result is a function
/// of the bytes alone, named `utf8_lossy_text`; the decoding is not stated.
#[verifier::external_body]
pub(crate) fn utf8_lossy(b: &[u8]) -> (r: String)
    ensures
        r@ == utf8_lossy_text(b@),
{
    String::from_utf8_lossy(b).into_owned()
}

} // verus!
