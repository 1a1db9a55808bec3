//! The byte side of one exchange on the serial line: the request frame that
//! is written and the text made of the bytes read back.
use vstd::prelude::*;
use crate::error::TransportError;
use crate::text::{remove_all, remove_all_occurrences, trim, trimmed};

verus! {

/// The text `String::from_utf8_lossy` makes of `b`.
pub uninterp spec fn utf8_lossy(b: Seq<u8>) -> Seq<char>;

/// Relies on `String::from_utf8_lossy`: the bytes decoded as UTF-8, with
/// each invalid sequence replaced by U+FFFD; no bytes give no text.
#[verifier::external_body]
fn decode_lossy(b: &[u8]) -> (r: String)
    ensures
        r@ == utf8_lossy(b@),
        b@.len() == 0 ==> r@.len() == 0,
{
    String::from_utf8_lossy(b).into_owned()
}

/// The request line as written: trimmed, then terminated by `\r`.
pub fn frame_command(cmd: &str) -> (r: String)
    ensures
        r@ == trimmed(cmd@).push('\r'),
{
    proof {
        reveal_strlit("\r");
    }
    let mut line = String::from_str(trim(cmd));
    line.append("\r");
    assert(line@ =~= trimmed(cmd@).push('\r'));
    line
}

/// Decoded reply text with every `\r` taken out.
pub fn clean_response(text: &str) -> (r: String)
    ensures
        r@ == remove_all(text@, seq!['\r']),
{
    proof {
        reveal_strlit("\r");
    }
    assert("\r"@ =~= seq!['\r']);
    remove_all_occurrences(text, "\r")
}

/// The reply made of the bytes one read returned: decoded lossily, line
/// terminators removed. A read of no bytes is an error.
pub fn decode_response(bytes: &[u8]) -> (r: Result<String, TransportError>)
    ensures
        bytes@.len() == 0 <==> r is Err,
        match r {
            Ok(s) => s@ == remove_all(utf8_lossy(bytes@), seq!['\r']),
            Err(e) => e is NoData,
        },
{
    if bytes.len() == 0 {
        return Err(TransportError::NoData);
    }
    let text = decode_lossy(bytes);
    Ok(clean_response(text.as_str()))
}

} // verus!
