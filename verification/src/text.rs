//! Text handling at the process boundary: UTF-8 decoding of captured output,
//! whitespace trimming, and whitespace tokenization.

use vstd::prelude::*;

verus! {

/// The characters `String::from_utf8_lossy` yields for the given bytes: valid
/// UTF-8 decoded as is, invalid sequences replaced. A pure function of the
/// bytes alone.
pub uninterp spec fn utf8_lossy_chars(bytes: Seq<u8>) -> Seq<char>;

/// The text of the error `String::from_utf8` reports for the given invalid
/// bytes. A pure function of the bytes alone.
pub uninterp spec fn utf8_error_text(bytes: Seq<u8>) -> Seq<char>;

/// The characters `str::trim` yields for the given text: leading and trailing
/// whitespace removed. A pure function of the text alone.
pub uninterp spec fn trimmed_of(text: Seq<char>) -> Seq<char>;

/// The tokens `str::split_whitespace` yields for the given text, in order. A
/// pure function of the text alone.
pub uninterp spec fn whitespace_tokens(text: Seq<char>) -> Seq<Seq<char>>;

/// Relies on `String::from_utf8`: succeeds exactly on valid UTF-8, decoding
/// it, and otherwise reports an error, rendered here through its display
/// form.
#[verifier::external_body]
pub(crate) fn decode_utf8_text(bytes: Vec<u8>) -> (r: Result<String, String>)
    ensures
        r matches Ok(s) ==> vstd::utf8::valid_utf8(bytes@) && s@ == vstd::utf8::decode_utf8(
            bytes@,
        ),
        r matches Err(e) ==> !vstd::utf8::valid_utf8(bytes@) && e@ == utf8_error_text(bytes@),
{
    match String::from_utf8(bytes) {
        Ok(s) => Ok(s),
        Err(e) => Err(format!("{}", e)),
    }
}

/// Relies on `String::from_utf8_lossy`: a pure function of the bytes, which
/// decodes valid UTF-8 verbatim.
#[verifier::external_body]
pub(crate) fn lossy_utf8_text(bytes: &Vec<u8>) -> (r: String)
    ensures
        r@ == utf8_lossy_chars(bytes@),
        vstd::utf8::valid_utf8(bytes@) ==> r@ == vstd::utf8::decode_utf8(bytes@),
{
    String::from_utf8_lossy(bytes.as_slice()).into_owned()
}

/// Relies on `str::trim`: a pure function of the characters.
#[verifier::external_body]
pub(crate) fn trim_text(s: &str) -> (r: String)
    ensures
        r@ == trimmed_of(s@),
{
    s.trim().to_string()
}

/// Relies on `str::split_whitespace`: a pure function of the characters.
#[verifier::external_body]
pub(crate) fn whitespace_token_list(s: &str) -> (r: Vec<String>)
    ensures
        r.deep_view() == whitespace_tokens(s@),
{
    s.split_whitespace().map(|t| t.to_string()).collect()
}

} // verus!
