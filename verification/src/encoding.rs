//! Guards the import against input that is not UTF-8, judged by its first bytes.

use vstd::prelude::*;
use vstd::string::StringExecFns;

verus! {

/// How many leading bytes the encoding is judged by.
pub const DETECTION_WINDOW: usize = 2048;

/// The name of the encoding that the detector guesses for a byte stream that
/// consists of `sample` and ends there.
pub uninterp spec fn guessed_encoding(sample: Seq<u8>) -> Seq<char>;

/// The bytes that the encoding is judged by: the first 2048, or all of them
/// if there are fewer.
pub open spec fn detection_sample(content: Seq<u8>) -> Seq<u8> {
    if content.len() <= DETECTION_WINDOW {
        content
    } else {
        content.take(DETECTION_WINDOW as int)
    }
}

/// Whether the detector's guess for the leading bytes of `content` is UTF-8.
pub open spec fn guessed_utf8(content: Seq<u8>) -> bool {
    guessed_encoding(detection_sample(content)) == "UTF-8"@
}

/// Feeds `sample` as a complete stream to a fresh `chardetng::EncodingDetector`
/// and asks for its guess with no top-level domain and UTF-8 allowed; the result
/// is the guessed encoding's `encoding_rs::Encoding::name`. The contract only
/// names that result `guessed_encoding(sample)`.
#[verifier::external_body]
fn guess_encoding(sample: &[u8]) -> (name: String)
    ensures
        name@ == guessed_encoding(sample@),
{
    let mut detector = chardetng::EncodingDetector::new();
    detector.feed(sample, true);
    detector.guess(None, true).name().to_string()
}

/// Judges by the leading bytes of `content` whether it is UTF-8.
pub fn check_utf8(content: &[u8]) -> (utf8: bool)
    ensures
        utf8 == guessed_utf8(content@),
{
    let sample = if content.len() <= DETECTION_WINDOW {
        content
    } else {
        let head = &content[0..DETECTION_WINDOW];
        head
    };
    let name = guess_encoding(sample);
    name == String::from_str("UTF-8")
}

} // verus!
