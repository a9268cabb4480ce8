//! Turning what a finished process left behind into its text.

use vstd::prelude::*;
use vstd::utf8::{decode_utf8, valid_utf8};

verus! {

/// The text that `String::from_utf8_lossy` makes of bytes: the text they
/// encode where they are valid UTF-8, and otherwise that text with a
/// replacement character for each ill-formed stretch.
pub uninterp spec fn utf8_lossy(bytes: Seq<u8>) -> Seq<char>;

/// Calls `String::from_utf8_lossy` and takes the result as an owned string.
/// The text depends on the bytes alone and is named [`utf8_lossy`]; valid
/// UTF-8 comes back as the text it encodes.
#[verifier::external_body]
pub(crate) fn decode_lossy(bytes: &[u8]) -> (text: String)
    ensures
        text@ == utf8_lossy(bytes@),
        valid_utf8(bytes@) ==> text@ == decode_utf8(bytes@),
{
    String::from_utf8_lossy(bytes).into_owned()
}

/// The text of a captured stream: its bytes without the last one, which is
/// taken to be the closing line feed, decoded leniently. A stream that
/// captured nothing is the empty text.
pub open spec fn captured(bytes: Seq<u8>) -> Seq<char> {
    if bytes.len() == 0 {
        Seq::empty()
    } else {
        utf8_lossy(bytes.drop_last())
    }
}

/// The text of a captured stream, see [`captured`]. Where the bytes before
/// the last one are valid UTF-8, it is the text that they encode.
pub fn capture(bytes: &Vec<u8>) -> (text: String)
    ensures
        text@ == captured(bytes@),
        bytes.len() > 0 && valid_utf8(bytes@.drop_last()) ==> text@ == decode_utf8(
            bytes@.drop_last(),
        ),
{
    if bytes.len() == 0 {
        String::new()
    } else {
        decode_lossy(vstd::slice::slice_subrange(bytes.as_slice(), 0, bytes.len() - 1))
    }
}

/// What a finished process amounts to: the text of its standard output if it
/// succeeded, the text of its standard error if it did not.
pub open spec fn outcome(success: bool, stdout: Seq<u8>, stderr: Seq<u8>) -> Result<
    Seq<char>,
    Seq<char>,
> {
    if success {
        Ok(captured(stdout))
    } else {
        Err(captured(stderr))
    }
}

/// The view of a process outcome.
pub open spec fn outcome_view(result: Result<String, String>) -> Result<Seq<char>, Seq<char>> {
    match result {
        Ok(text) => Ok(text@),
        Err(text) => Err(text@),
    }
}

/// Reads the outcome of a finished process off its exit status and the two
/// streams it wrote. Where the stream that counts is valid UTF-8 up to its
/// last byte, the text is what those bytes encode.
pub fn exec(success: bool, stdout: &Vec<u8>, stderr: &Vec<u8>) -> (result: Result<String, String>)
    ensures
        outcome_view(result) == outcome(success, stdout@, stderr@),
        success && stdout.len() > 0 && valid_utf8(stdout@.drop_last()) ==> outcome_view(result)
            == Ok::<Seq<char>, Seq<char>>(decode_utf8(stdout@.drop_last())),
        !success && stderr.len() > 0 && valid_utf8(stderr@.drop_last()) ==> outcome_view(result)
            == Err::<Seq<char>, Seq<char>>(decode_utf8(stderr@.drop_last())),
{
    if success {
        Ok(capture(stdout))
    } else {
        Err(capture(stderr))
    }
}

} // verus!
