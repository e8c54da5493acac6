//! Text as contracts handle it: strings compared with literals and turned
//! into their bytes.

use vstd::prelude::*;
use vstd::string::*;
use vstd::utf8::encode_utf8;
use crate::bytes::copy;

verus! {

/// Whether a text is the given literal.
pub fn equals(text: &String, literal: &str) -> (same: bool)
    ensures
        same == (text@ == literal@),
{
    let owned = literal.to_owned();
    *text == owned
}

/// The bytes of a text.
pub fn bytes_of(text: &str) -> (bytes: Vec<u8>)
    ensures
        bytes@ == encode_utf8(text@),
{
    copy(text.as_bytes())
}

} // verus!
