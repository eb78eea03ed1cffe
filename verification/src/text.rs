//! Turning captured bytes into text.

use crate::command::texts;
use vstd::prelude::*;
use vstd::utf8::{decode_utf8, valid_utf8};

verus! {

/// The error of `String::from_utf8`, carried through unopened.
#[verifier::external_type_specification]
#[verifier::external_body]
pub struct ExFromUtf8Error(std::string::FromUtf8Error);

/// `String::from_utf8` of the standard library: it succeeds exactly on bytes
/// that are well-formed UTF-8, and the string it gives holds the characters
/// those bytes encode. Nothing is claimed of the error it returns otherwise.
pub assume_specification[ std::string::String::from_utf8 ](vec: Vec<u8>) -> (converted: Result<
    String,
    std::string::FromUtf8Error,
>)
    ensures
        converted is Ok <==> valid_utf8(vec@),
        converted matches Ok(string) ==> string@ == decode_utf8(vec@),
;

/// The text that `bytes` encode, if they are well-formed UTF-8.
pub open spec fn decoded(bytes: Seq<u8>) -> Option<Seq<char>> {
    if valid_utf8(bytes) {
        Some(decode_utf8(bytes))
    } else {
        None
    }
}

/// Decodes captured bytes as text; `None` when they are not text.
pub fn decode(bytes: Vec<u8>) -> (text: Option<String>)
    ensures
        match text {
            Some(text) => decoded(bytes@) == Some(text@),
            None => decoded(bytes@) is None,
        },
{
    match String::from_utf8(bytes) {
        Ok(text) => Some(text),
        Err(_) => None,
    }
}

/// What stands between two lines of a text.
pub open spec fn line_break() -> Seq<char> {
    "\n"@
}

/// The text made of `lines`: the first line as it is, and every later line
/// after one line break. No line is left out, no empty one either, and
/// nothing follows the last line.
pub open spec fn joined(lines: Seq<Seq<char>>) -> Seq<char>
    decreases lines.len(),
{
    if lines.len() == 0 {
        Seq::empty()
    } else if lines.len() == 1 {
        lines[0]
    } else {
        joined(lines.drop_last()) + line_break() + lines.last()
    }
}

/// Joins lines into one text, with a line break between each two.
pub fn join_lines(lines: &Vec<String>) -> (text: String)
    ensures
        text@ == joined(texts(lines@)),
{
    let ghost all = texts(lines@);
    let mut text = String::new();
    let mut at: usize = 0;
    while at < lines.len()
        invariant
            at <= lines.len(),
            all == texts(lines@),
            text@ == joined(all.take(at as int)),
        decreases lines.len() - at,
    {
        if at > 0 {
            text.append("\n");
        }
        text.append(lines[at].as_str());
        proof {
            let taken = all.take(at + 1);
            assert(taken.drop_last() =~= all.take(at as int));
            assert(taken.last() == lines[at as int]@);
            assert(text@ =~= joined(taken));
        }
        at += 1;
    }
    assert(all.take(at as int) =~= all);
    text
}

} // verus!
