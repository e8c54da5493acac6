//! The address codec: canonical addresses are twenty opaque bytes, human
//! addresses are their checksummed text form under the network's prefix.

use vstd::prelude::*;
use vstd::slice::slice_subrange;
use crate::bech32::{
    are_symbols, check_prefix, decode_any_case, decode_any_case_spec, decode_spec, encode,
    encode_spec, has_upper, lemma_chars_of, lemma_checksum_completes,
    lemma_decode_encode, lemma_encode_decode, lemma_encoded_is_lower, lemma_lowered_nothing,
    lowered, prefix_ok,
};
use crate::bytes::same;
use crate::trap::AddressError;

verus! {

/// The length of a canonical address in bytes.
pub const CANONICAL_LENGTH: usize = 20;

/// The length of a canonical address in 5-bit symbols.
pub const PAYLOAD_LENGTH: usize = 32;

/// Five bytes are forty bits, and forty bits are eight symbols. Symbol 0
/// is the top five bits of byte 0.
pub open spec fn q0(b0: u8) -> u8 {
    b0 >> 3
}

/// Symbol 1: the low three bits of byte 0 and the top two of byte 1.
pub open spec fn q1(b0: u8, b1: u8) -> u8 {
    ((b0 & 7) << 2) | (b1 >> 6)
}

/// Symbol 2: five bits from the middle of byte 1.
pub open spec fn q2(b1: u8) -> u8 {
    (b1 >> 1) & 31
}

/// Symbol 3: the lowest bit of byte 1 and the top four of byte 2.
pub open spec fn q3(b1: u8, b2: u8) -> u8 {
    ((b1 & 1) << 4) | (b2 >> 4)
}

/// Symbol 4: the low four bits of byte 2 and the top bit of byte 3.
pub open spec fn q4(b2: u8, b3: u8) -> u8 {
    ((b2 & 15) << 1) | (b3 >> 7)
}

/// Symbol 5: five bits from the middle of byte 3.
pub open spec fn q5(b3: u8) -> u8 {
    (b3 >> 2) & 31
}

/// Symbol 6: the low two bits of byte 3 and the top three of byte 4.
pub open spec fn q6(b3: u8, b4: u8) -> u8 {
    ((b3 & 3) << 3) | (b4 >> 5)
}

/// Symbol 7: the low five bits of byte 4.
pub open spec fn q7(b4: u8) -> u8 {
    b4 & 31
}

/// The way back: byte 0 is symbol 0 and the top three bits of symbol 1.
pub open spec fn o0(s0: u8, s1: u8) -> u8 {
    (s0 << 3) | (s1 >> 2)
}

/// Byte 1: the low two bits of symbol 1, symbol 2 and the top bit of
/// symbol 3.
pub open spec fn o1(s1: u8, s2: u8, s3: u8) -> u8 {
    ((s1 & 3) << 6) | (s2 << 1) | (s3 >> 4)
}

/// Byte 2: the low four bits of symbol 3 and the top four of symbol 4.
pub open spec fn o2(s3: u8, s4: u8) -> u8 {
    ((s3 & 15) << 4) | (s4 >> 1)
}

/// Byte 3: the lowest bit of symbol 4, symbol 5 and the top two bits of
/// symbol 6.
pub open spec fn o3(s4: u8, s5: u8, s6: u8) -> u8 {
    ((s4 & 1) << 7) | (s5 << 2) | (s6 >> 3)
}

/// Byte 4: the low three bits of symbol 6 and symbol 7.
pub open spec fn o4(s6: u8, s7: u8) -> u8 {
    ((s6 & 7) << 5) | s7
}

/// The symbol at place `i` of a byte string read as a string of bits, five
/// bits to the symbol: each five bytes give eight symbols.
pub open spec fn symbol_at(bytes: Seq<u8>, i: int) -> u8 {
    let g = 5 * (i / 8);
    let r = i % 8;
    if r == 0 {
        q0(bytes[g])
    } else if r == 1 {
        q1(bytes[g], bytes[g + 1])
    } else if r == 2 {
        q2(bytes[g + 1])
    } else if r == 3 {
        q3(bytes[g + 1], bytes[g + 2])
    } else if r == 4 {
        q4(bytes[g + 2], bytes[g + 3])
    } else if r == 5 {
        q5(bytes[g + 3])
    } else if r == 6 {
        q6(bytes[g + 3], bytes[g + 4])
    } else {
        q7(bytes[g + 4])
    }
}

/// The byte at place `k` of a string of symbols read as a string of bits:
/// each eight symbols give five bytes.
pub open spec fn byte_at(symbols: Seq<u8>, k: int) -> u8 {
    let g = 8 * (k / 5);
    let r = k % 5;
    if r == 0 {
        o0(symbols[g], symbols[g + 1])
    } else if r == 1 {
        o1(symbols[g + 1], symbols[g + 2], symbols[g + 3])
    } else if r == 2 {
        o2(symbols[g + 3], symbols[g + 4])
    } else if r == 3 {
        o3(symbols[g + 4], symbols[g + 5], symbols[g + 6])
    } else {
        o4(symbols[g + 6], symbols[g + 7])
    }
}

/// The thirty-two symbols of a canonical address.
pub open spec fn to_symbols(canonical: Seq<u8>) -> Seq<u8> {
    Seq::new(32, |i: int| symbol_at(canonical, i))
}

/// The twenty bytes that thirty-two symbols stand for.
pub open spec fn to_bytes(symbols: Seq<u8>) -> Seq<u8> {
    Seq::new(20, |k: int| byte_at(symbols, k))
}

/// Five bytes cut into symbols and put together again are the same five
/// bytes, and each of the symbols is below 32.
proof fn lemma_group_to_bytes(b0: u8, b1: u8, b2: u8, b3: u8, b4: u8)
    by (bit_vector)
    ensures
        o0(q0(b0), q1(b0, b1)) == b0,
        o1(q1(b0, b1), q2(b1), q3(b1, b2)) == b1,
        o2(q3(b1, b2), q4(b2, b3)) == b2,
        o3(q4(b2, b3), q5(b3), q6(b3, b4)) == b3,
        o4(q6(b3, b4), q7(b4)) == b4,
        q0(b0) < 32,
        q1(b0, b1) < 32,
        q2(b1) < 32,
        q3(b1, b2) < 32,
        q4(b2, b3) < 32,
        q5(b3) < 32,
        q6(b3, b4) < 32,
        q7(b4) < 32,
{
}

/// Eight symbols put together to bytes and cut again are the same eight
/// symbols.
proof fn lemma_group_to_symbols(
    s0: u8,
    s1: u8,
    s2: u8,
    s3: u8,
    s4: u8,
    s5: u8,
    s6: u8,
    s7: u8,
)
    by (bit_vector)
    requires
        s0 < 32,
        s1 < 32,
        s2 < 32,
        s3 < 32,
        s4 < 32,
        s5 < 32,
        s6 < 32,
        s7 < 32,
    ensures
        q0(o0(s0, s1)) == s0,
        q1(o0(s0, s1), o1(s1, s2, s3)) == s1,
        q2(o1(s1, s2, s3)) == s2,
        q3(o1(s1, s2, s3), o2(s3, s4)) == s3,
        q4(o2(s3, s4), o3(s4, s5, s6)) == s4,
        q5(o3(s4, s5, s6)) == s5,
        q6(o3(s4, s5, s6), o4(s6, s7)) == s6,
        q7(o4(s6, s7)) == s7,
{
}

/// Regrouping twenty bytes into symbols and back changes nothing.
pub proof fn lemma_bytes_roundtrip(canonical: Seq<u8>)
    requires
        canonical.len() == 20,
    ensures
        to_symbols(canonical).len() == 32,
        are_symbols(to_symbols(canonical)),
        to_bytes(to_symbols(canonical)) == canonical,
{
    let symbols = to_symbols(canonical);
    assert forall|g: int| 0 <= g < 4 implies {
        &&& byte_at(symbols, 5 * g) == canonical[5 * g]
        &&& byte_at(symbols, 5 * g + 1) == canonical[5 * g + 1]
        &&& byte_at(symbols, 5 * g + 2) == canonical[5 * g + 2]
        &&& byte_at(symbols, 5 * g + 3) == canonical[5 * g + 3]
        &&& byte_at(symbols, 5 * g + 4) == canonical[5 * g + 4]
        &&& #[trigger] symbols[8 * g] < 32
        &&& symbols[8 * g + 1] < 32
        &&& symbols[8 * g + 2] < 32
        &&& symbols[8 * g + 3] < 32
        &&& symbols[8 * g + 4] < 32
        &&& symbols[8 * g + 5] < 32
        &&& symbols[8 * g + 6] < 32
        &&& symbols[8 * g + 7] < 32
    } by {
        lemma_group_to_bytes(
            canonical[5 * g],
            canonical[5 * g + 1],
            canonical[5 * g + 2],
            canonical[5 * g + 3],
            canonical[5 * g + 4],
        );
    }
    assert forall|k: int| 0 <= k < 20 implies #[trigger] byte_at(symbols, k) == canonical[k] by {
        let g = k / 5;
        assert(symbols[8 * g] < 32);
    }
    assert forall|i: int| 0 <= i < 32 implies #[trigger] symbols[i] < 32 by {
        let g = i / 8;
        assert(symbols[8 * g] < 32);
    }
    assert(to_bytes(symbols) =~= canonical);
}

/// One group of eight symbols survives the way to bytes and back.
proof fn lemma_symbols_group(symbols: Seq<u8>, g: int)
    requires
        symbols.len() == 32,
        are_symbols(symbols),
        0 <= g < 4,
    ensures
        symbol_at(to_bytes(symbols), 8 * g) == symbols[8 * g],
        symbol_at(to_bytes(symbols), 8 * g + 1) == symbols[8 * g + 1],
        symbol_at(to_bytes(symbols), 8 * g + 2) == symbols[8 * g + 2],
        symbol_at(to_bytes(symbols), 8 * g + 3) == symbols[8 * g + 3],
        symbol_at(to_bytes(symbols), 8 * g + 4) == symbols[8 * g + 4],
        symbol_at(to_bytes(symbols), 8 * g + 5) == symbols[8 * g + 5],
        symbol_at(to_bytes(symbols), 8 * g + 6) == symbols[8 * g + 6],
        symbol_at(to_bytes(symbols), 8 * g + 7) == symbols[8 * g + 7],
{
    let bytes = to_bytes(symbols);
    let s0 = symbols[8 * g];
    let s1 = symbols[8 * g + 1];
    let s2 = symbols[8 * g + 2];
    let s3 = symbols[8 * g + 3];
    let s4 = symbols[8 * g + 4];
    let s5 = symbols[8 * g + 5];
    let s6 = symbols[8 * g + 6];
    let s7 = symbols[8 * g + 7];
    lemma_group_to_symbols(s0, s1, s2, s3, s4, s5, s6, s7);
    assert((5 * g) / 5 == g && (5 * g) % 5 == 0);
    assert((5 * g + 1) / 5 == g && (5 * g + 1) % 5 == 1);
    assert((5 * g + 2) / 5 == g && (5 * g + 2) % 5 == 2);
    assert((5 * g + 3) / 5 == g && (5 * g + 3) % 5 == 3);
    assert((5 * g + 4) / 5 == g && (5 * g + 4) % 5 == 4);
    assert(bytes[5 * g] == o0(s0, s1));
    assert(bytes[5 * g + 1] == o1(s1, s2, s3));
    assert(bytes[5 * g + 2] == o2(s3, s4));
    assert(bytes[5 * g + 3] == o3(s4, s5, s6));
    assert(bytes[5 * g + 4] == o4(s6, s7));
    assert((8 * g) / 8 == g && (8 * g) % 8 == 0);
    assert((8 * g + 1) / 8 == g && (8 * g + 1) % 8 == 1);
    assert((8 * g + 2) / 8 == g && (8 * g + 2) % 8 == 2);
    assert((8 * g + 3) / 8 == g && (8 * g + 3) % 8 == 3);
    assert((8 * g + 4) / 8 == g && (8 * g + 4) % 8 == 4);
    assert((8 * g + 5) / 8 == g && (8 * g + 5) % 8 == 5);
    assert((8 * g + 6) / 8 == g && (8 * g + 6) % 8 == 6);
    assert((8 * g + 7) / 8 == g && (8 * g + 7) % 8 == 7);
}

/// Regrouping thirty-two symbols into bytes and back changes nothing.
pub proof fn lemma_symbols_roundtrip(symbols: Seq<u8>)
    requires
        symbols.len() == 32,
        are_symbols(symbols),
    ensures
        to_bytes(symbols).len() == 20,
        to_symbols(to_bytes(symbols)) == symbols,
{
    let bytes = to_bytes(symbols);
    lemma_symbols_group(symbols, 0);
    lemma_symbols_group(symbols, 1);
    lemma_symbols_group(symbols, 2);
    lemma_symbols_group(symbols, 3);
    assert forall|i: int| 0 <= i < 32 implies #[trigger] symbol_at(bytes, i) == symbols[i] by {
        let g = i / 8;
        let r = i % 8;
        assert(i == 8 * g + r);
        assert(g == 0 || g == 1 || g == 2 || g == 3);
    }
    assert(to_symbols(bytes) =~= symbols);
}

/// White space: the blank and the control characters from tab to carriage
/// return.
pub open spec fn is_space(c: u8) -> bool {
    c == 32 || (9 <= c <= 13)
}

/// The text without the white space at its start.
pub open spec fn trim_start(text: Seq<u8>) -> Seq<u8>
    decreases text.len(),
{
    if text.len() > 0 && is_space(text[0]) {
        trim_start(text.skip(1))
    } else {
        text
    }
}

/// The text without the white space at its end.
pub open spec fn trim_end(text: Seq<u8>) -> Seq<u8>
    decreases text.len(),
{
    if text.len() > 0 && is_space(text.last()) {
        trim_end(text.drop_last())
    } else {
        text
    }
}

/// The text without the white space around it.
pub open spec fn trim(text: Seq<u8>) -> Seq<u8> {
    trim_end(trim_start(text))
}

/// The canonical address that a human address stands for under the
/// network prefix, or the class of its fault.
pub open spec fn canonicalize_spec(prefix: Seq<u8>, human: Seq<u8>) -> Result<
    Seq<u8>,
    AddressError,
> {
    let text = trim(human);
    if text.len() == 0 {
        Err(AddressError::Empty)
    } else {
        match decode_any_case_spec(text) {
            None => Err(AddressError::Malformed),
            Some((found, payload)) => if found != prefix {
                Err(AddressError::WrongPrefix)
            } else if payload.len() != 32 {
                Err(AddressError::Malformed)
            } else {
                Ok(to_bytes(payload))
            },
        }
    }
}

/// The human address of a canonical address under the network prefix.
pub open spec fn humanize_spec(prefix: Seq<u8>, canonical: Seq<u8>) -> Result<
    Seq<u8>,
    AddressError,
> {
    if canonical.len() != 20 {
        Err(AddressError::InvalidCanonical)
    } else {
        Ok(encode_spec(prefix, to_symbols(canonical)))
    }
}

/// Whether a human address is sound and written in its normal form: the
/// text that humanizing its canonical address gives.
pub open spec fn validate_spec(prefix: Seq<u8>, human: Seq<u8>) -> Result<(), AddressError> {
    match canonicalize_spec(prefix, human) {
        Err(fault) => Err(fault),
        Ok(canonical) => if humanize_spec(prefix, canonical) == Ok::<Seq<u8>, AddressError>(
            human,
        ) {
            Ok(())
        } else {
            Err(AddressError::NotNormalized)
        },
    }
}

/// A text that starts and ends with something other than white space is
/// its own trimmed form.
pub proof fn lemma_trim_nothing(text: Seq<u8>)
    requires
        text.len() > 0,
        !is_space(text[0]),
        !is_space(text.last()),
    ensures
        trim(text) == text,
{
}

/// What is cut from the start of a text is white space, and what is left
/// does not start with white space.
proof fn lemma_trim_start(text: Seq<u8>)
    ensures
        trim_start(text).len() <= text.len(),
        trim_start(text) == text.skip(text.len() - trim_start(text).len()),
        trim_start(text).len() > 0 ==> !is_space(trim_start(text)[0]),
        forall|i: int| 0 <= i < text.len() - trim_start(text).len() ==> is_space(#[trigger] text[i]),
    decreases text.len(),
{
    if text.len() > 0 && is_space(text[0]) {
        let rest = text.skip(1);
        lemma_trim_start(rest);
        let cut = rest.len() - trim_start(rest).len();
        assert(rest.skip(cut) =~= text.skip(cut + 1));
        assert forall|i: int| 0 <= i < text.len() - trim_start(text).len() implies is_space(
            #[trigger] text[i],
        ) by {
            if i > 0 {
                assert(rest[i - 1] == text[i]);
            }
        }
    } else {
        assert(text.skip(0) =~= text);
    }
}

/// What is cut from the end of a text is white space, and what is left
/// does not end with white space.
proof fn lemma_trim_end(text: Seq<u8>)
    ensures
        trim_end(text).len() <= text.len(),
        trim_end(text) == text.take(trim_end(text).len() as int),
        trim_end(text).len() > 0 ==> !is_space(trim_end(text).last()),
        forall|i: int| trim_end(text).len() <= i < text.len() ==> is_space(#[trigger] text[i]),
    decreases text.len(),
{
    if text.len() > 0 && is_space(text.last()) {
        let rest = text.drop_last();
        lemma_trim_end(rest);
        assert(rest.take(trim_end(rest).len() as int) =~= text.take(trim_end(rest).len() as int));
        assert forall|i: int| trim_end(text).len() <= i < text.len() implies is_space(
            #[trigger] text[i],
        ) by {
            if i < rest.len() {
                assert(rest[i] == text[i]);
            }
        }
    } else {
        assert(text.take(text.len() as int) =~= text);
    }
}

/// The trimmed text is a stretch of the text with nothing but white space
/// before and behind it, and with no white space at its own ends.
pub proof fn lemma_trim(text: Seq<u8>)
    ensures
        exists|from: int, to: int|
            {
                &&& 0 <= from <= to <= text.len()
                &&& #[trigger] text.subrange(from, to) == trim(text)
                &&& forall|i: int| 0 <= i < from ==> is_space(#[trigger] text[i])
                &&& forall|i: int| to <= i < text.len() ==> is_space(#[trigger] text[i])
            },
        trim(text).len() > 0 ==> !is_space(trim(text)[0]) && !is_space(trim(text).last()),
{
    let middle = trim_start(text);
    let from = text.len() - middle.len();
    lemma_trim_start(text);
    lemma_trim_end(middle);
    let to = from + trim(text).len();
    assert(text.subrange(from, to) =~= middle.take(trim(text).len() as int));
    assert forall|i: int| to <= i < text.len() implies is_space(#[trigger] text[i]) by {
        assert(middle[i - from] == text[i]);
    }
    if trim(text).len() > 0 {
        assert(trim(text)[0] == middle[0]);
    }
}

/// The address codec of one network.
#[derive(Debug)]
pub struct AddressCodec {
    prefix: Vec<u8>,
}

impl AddressCodec {
    /// The network's prefix.
    pub closed spec fn prefix(&self) -> Seq<u8> {
        self.prefix@
    }

    /// The prefix can stand in an address.
    pub open spec fn wf(&self) -> bool {
        prefix_ok(self.prefix())
    }

    /// A codec for the network with the given prefix, if the prefix can
    /// stand in an address.
    pub fn new(prefix: Vec<u8>) -> (codec: Option<AddressCodec>)
        ensures
            codec is Some <==> prefix_ok(prefix@),
            codec is Some ==> codec->Some_0.wf() && codec->Some_0.prefix() == prefix@,
    {
        if check_prefix(prefix.as_slice()) {
            Some(AddressCodec { prefix })
        } else {
            None
        }
    }

    /// Converts a human address to its canonical form, or says in which of
    /// the classes of faults it falls.
    pub fn canonicalize(&self, human: &[u8]) -> (canonical: Result<Vec<u8>, AddressError>)
        ensures
            match canonicalize_spec(self.prefix(), human@) {
                Ok(bytes) => canonical is Ok && canonical->Ok_0@ == bytes,
                Err(fault) => canonical == Err::<Vec<u8>, AddressError>(fault),
            },
    {
        let text = trimmed(human);
        if text.len() == 0 {
            return Err(AddressError::Empty);
        }
        match decode_any_case(text) {
            None => Err(AddressError::Malformed),
            Some((found, payload)) => {
                if !same(found.as_slice(), self.prefix.as_slice()) {
                    Err(AddressError::WrongPrefix)
                } else if payload.len() != PAYLOAD_LENGTH {
                    Err(AddressError::Malformed)
                } else {
                    Ok(pack(payload.as_slice()))
                }
            },
        }
    }

    /// Converts a canonical address to its human form.
    pub fn humanize(&self, canonical: &[u8]) -> (human: Result<Vec<u8>, AddressError>)
        ensures
            match humanize_spec(self.prefix(), canonical@) {
                Ok(text) => human is Ok && human->Ok_0@ == text,
                Err(fault) => human == Err::<Vec<u8>, AddressError>(fault),
            },
    {
        if canonical.len() != CANONICAL_LENGTH {
            return Err(AddressError::InvalidCanonical);
        }
        let symbols = unpack(canonical);
        Ok(encode(self.prefix.as_slice(), symbols.as_slice()))
    }

    /// Checks that a human address is sound and in its normal form.
    pub fn validate(&self, human: &[u8]) -> (status: Result<(), AddressError>)
        ensures
            status == validate_spec(self.prefix(), human@),
    {
        match self.canonicalize(human) {
            Err(fault) => Err(fault),
            Ok(canonical) => match self.humanize(canonical.as_slice()) {
                Err(fault) => Err(AddressError::NotNormalized),
                Ok(text) => if same(text.as_slice(), human) {
                    Ok(())
                } else {
                    Err(AddressError::NotNormalized)
                },
            },
        }
    }
}

/// The part of `text` between the white space at its ends.
fn trimmed(text: &[u8]) -> (inner: &[u8])
    ensures
        inner@ == trim(text@),
{
    let mut start: usize = 0;
    proof {
        assert(text@.skip(0) =~= text@);
    }
    while start < text.len() && (text[start] == 32 || (9 <= text[start] && text[start] <= 13))
        invariant
            start <= text@.len(),
            trim_start(text@) == trim_start(text@.skip(start as int)),
        decreases text@.len() - start,
    {
        proof {
            assert(text@.skip(start as int).skip(1) =~= text@.skip(start + 1));
        }
        start = start + 1;
    }
    let mut end: usize = text.len();
    let ghost from = text@.skip(start as int);
    proof {
        assert(from.take(from.len() as int) =~= from);
    }
    while end > start && (text[end - 1] == 32 || (9 <= text[end - 1] && text[end - 1] <= 13))
        invariant
            start <= end <= text@.len(),
            from == text@.skip(start as int),
            trim_end(from) == trim_end(from.take(end - start)),
        decreases end,
    {
        proof {
            assert(from.take(end - start).drop_last() =~= from.take(end - start - 1));
        }
        end = end - 1;
    }
    proof {
        assert(text@.subrange(start as int, end as int) =~= from.take(end - start));
    }
    slice_subrange(text, start, end)
}

/// Thirty-two symbols as twenty bytes.
fn pack(symbols: &[u8]) -> (bytes: Vec<u8>)
    requires
        symbols@.len() == 32,
    ensures
        bytes@ == to_bytes(symbols@),
{
    let mut bytes: Vec<u8> = Vec::new();
    let mut g: usize = 0;
    while g < 4
        invariant
            g <= 4,
            symbols@.len() == 32,
            bytes@.len() == 5 * g,
            forall|k: int| 0 <= k < 5 * g ==> #[trigger] bytes@[k] == byte_at(symbols@, k),
        decreases 4 - g,
    {
        let s0 = symbols[8 * g];
        let s1 = symbols[8 * g + 1];
        let s2 = symbols[8 * g + 2];
        let s3 = symbols[8 * g + 3];
        let s4 = symbols[8 * g + 4];
        let s5 = symbols[8 * g + 5];
        let s6 = symbols[8 * g + 6];
        let s7 = symbols[8 * g + 7];
        bytes.push((s0 << 3) | (s1 >> 2));
        bytes.push(((s1 & 3) << 6) | (s2 << 1) | (s3 >> 4));
        bytes.push(((s3 & 15) << 4) | (s4 >> 1));
        bytes.push(((s4 & 1) << 7) | (s5 << 2) | (s6 >> 3));
        bytes.push(((s6 & 7) << 5) | s7);
        g = g + 1;
    }
    proof {
        assert(bytes@ =~= to_bytes(symbols@));
    }
    bytes
}

/// Twenty bytes as thirty-two symbols.
fn unpack(canonical: &[u8]) -> (symbols: Vec<u8>)
    requires
        canonical@.len() == 20,
    ensures
        symbols@ == to_symbols(canonical@),
{
    let mut symbols: Vec<u8> = Vec::new();
    let mut g: usize = 0;
    while g < 4
        invariant
            g <= 4,
            canonical@.len() == 20,
            symbols@.len() == 8 * g,
            forall|i: int| 0 <= i < 8 * g ==> #[trigger] symbols@[i] == symbol_at(canonical@, i),
        decreases 4 - g,
    {
        let b0 = canonical[5 * g];
        let b1 = canonical[5 * g + 1];
        let b2 = canonical[5 * g + 2];
        let b3 = canonical[5 * g + 3];
        let b4 = canonical[5 * g + 4];
        symbols.push(b0 >> 3);
        symbols.push(((b0 & 7) << 2) | (b1 >> 6));
        symbols.push((b1 >> 1) & 31);
        symbols.push(((b1 & 1) << 4) | (b2 >> 4));
        symbols.push(((b2 & 15) << 1) | (b3 >> 7));
        symbols.push((b3 >> 2) & 31);
        symbols.push(((b3 & 3) << 3) | (b4 >> 5));
        symbols.push(b4 & 31);
        g = g + 1;
    }
    proof {
        assert(symbols@ =~= to_symbols(canonical@));
    }
    symbols
}

/// Humanizing a canonical address and canonicalizing the result gives the
/// canonical address back.
pub proof fn lemma_canonicalize_humanize(prefix: Seq<u8>, canonical: Seq<u8>)
    requires
        prefix_ok(prefix),
        canonical.len() == 20,
    ensures
        humanize_spec(prefix, canonical) is Ok,
        canonicalize_spec(prefix, humanize_spec(prefix, canonical)->Ok_0) == Ok::<
            Seq<u8>,
            AddressError,
        >(canonical),
{
    let symbols = to_symbols(canonical);
    let text = encode_spec(prefix, symbols);
    lemma_bytes_roundtrip(canonical);
    lemma_decode_encode(prefix, symbols);
    lemma_checksum_completes(prefix, symbols);
    let behind = symbols + crate::bech32::checksum_of(prefix, symbols);
    assert(are_symbols(behind));
    lemma_chars_of(behind);
    assert(text[0] == prefix[0]);
    assert(text.last() == crate::bech32::chars_of(behind)[behind.len() - 1]);
    lemma_trim_nothing(text);
    lemma_encoded_is_lower(prefix, symbols);
    lemma_lowered_nothing(text);
}

/// Canonicalizing a human address and humanizing the result gives the
/// human address back in its normal form: without the white space around
/// it, and in lower case.
pub proof fn lemma_humanize_canonicalize(prefix: Seq<u8>, human: Seq<u8>)
    requires
        canonicalize_spec(prefix, human) is Ok,
    ensures
        canonicalize_spec(prefix, human)->Ok_0.len() == 20,
        humanize_spec(prefix, canonicalize_spec(prefix, human)->Ok_0) == Ok::<
            Seq<u8>,
            AddressError,
        >(lowered(trim(human))),
        !has_upper(trim(human)) ==> lowered(trim(human)) == trim(human),
{
    let text = lowered(trim(human));
    let payload = decode_spec(text)->Some_0.1;
    lemma_encode_decode(text);
    lemma_symbols_roundtrip(payload);
    if !has_upper(trim(human)) {
        lemma_lowered_nothing(trim(human));
    }
}

} // verus!
