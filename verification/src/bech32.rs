//! The checksummed base-32 text encoding in which human-readable addresses
//! are written: a prefix, the separator `1`, then the payload and a
//! six-symbol checksum in a 32-character alphabet.

use vstd::prelude::*;
use vstd::slice::slice_subrange;
use crate::bytes::{copy, join};
use crate::polymod::{
    feed, lemma_flip, lemma_pack_unpack, lemma_polymod_concat, lemma_polymod_six,
    lemma_six_rounds_linear, lemma_step_bound, lemma_unpack_pack, pack_six, polymod_from,
    polymod_step, unpack_six,
};

verus! {

/// The separator between prefix and payload.
pub const SEPARATOR: u8 = 0x31;

/// The number of checksum symbols.
pub const CHECKSUM_LENGTH: usize = 6;

/// The character that stands for a symbol. The alphabet is
/// `qpzry9x8gf2tvdw0s3jn54khce6mua7l`.
pub open spec fn char_of(symbol: u8) -> u8 {
    match symbol {
        0u8 => 0x71u8,
        1u8 => 0x70u8,
        2u8 => 0x7au8,
        3u8 => 0x72u8,
        4u8 => 0x79u8,
        5u8 => 0x39u8,
        6u8 => 0x78u8,
        7u8 => 0x38u8,
        8u8 => 0x67u8,
        9u8 => 0x66u8,
        10u8 => 0x32u8,
        11u8 => 0x74u8,
        12u8 => 0x76u8,
        13u8 => 0x64u8,
        14u8 => 0x77u8,
        15u8 => 0x30u8,
        16u8 => 0x73u8,
        17u8 => 0x33u8,
        18u8 => 0x6au8,
        19u8 => 0x6eu8,
        20u8 => 0x35u8,
        21u8 => 0x34u8,
        22u8 => 0x6bu8,
        23u8 => 0x68u8,
        24u8 => 0x63u8,
        25u8 => 0x65u8,
        26u8 => 0x36u8,
        27u8 => 0x6du8,
        28u8 => 0x75u8,
        29u8 => 0x61u8,
        30u8 => 0x37u8,
        _ => 0x6cu8,
    }
}

/// The symbol that a character stands for, if it is in the alphabet.
pub open spec fn symbol_of(c: u8) -> Option<u8> {
    match c {
        0x71u8 => Some(0u8),
        0x70u8 => Some(1u8),
        0x7au8 => Some(2u8),
        0x72u8 => Some(3u8),
        0x79u8 => Some(4u8),
        0x39u8 => Some(5u8),
        0x78u8 => Some(6u8),
        0x38u8 => Some(7u8),
        0x67u8 => Some(8u8),
        0x66u8 => Some(9u8),
        0x32u8 => Some(10u8),
        0x74u8 => Some(11u8),
        0x76u8 => Some(12u8),
        0x64u8 => Some(13u8),
        0x77u8 => Some(14u8),
        0x30u8 => Some(15u8),
        0x73u8 => Some(16u8),
        0x33u8 => Some(17u8),
        0x6au8 => Some(18u8),
        0x6eu8 => Some(19u8),
        0x35u8 => Some(20u8),
        0x34u8 => Some(21u8),
        0x6bu8 => Some(22u8),
        0x68u8 => Some(23u8),
        0x63u8 => Some(24u8),
        0x65u8 => Some(25u8),
        0x36u8 => Some(26u8),
        0x6du8 => Some(27u8),
        0x75u8 => Some(28u8),
        0x61u8 => Some(29u8),
        0x37u8 => Some(30u8),
        0x6cu8 => Some(31u8),
        _ => None,
    }
}

/// Every symbol has a character of its own, and none is the separator or
/// white space.
pub proof fn lemma_char_of(symbol: u8)
    requires
        symbol < 32,
    ensures
        symbol_of(char_of(symbol)) == Some(symbol),
        char_of(symbol) != SEPARATOR,
        48 <= char_of(symbol) <= 122,
{
}

/// Every character of the alphabet stands for one symbol.
pub proof fn lemma_symbol_of(c: u8)
    requires
        symbol_of(c) is Some,
    ensures
        symbol_of(c)->Some_0 < 32,
        char_of(symbol_of(c)->Some_0) == c,
        c != SEPARATOR,
{
}

/// The character that stands for a symbol.
#[verifier::when_used_as_spec(char_of)]
pub fn encode_symbol(symbol: u8) -> (c: u8)
    ensures
        c == char_of(symbol),
{
    match symbol {
        0u8 => 0x71u8,
        1u8 => 0x70u8,
        2u8 => 0x7au8,
        3u8 => 0x72u8,
        4u8 => 0x79u8,
        5u8 => 0x39u8,
        6u8 => 0x78u8,
        7u8 => 0x38u8,
        8u8 => 0x67u8,
        9u8 => 0x66u8,
        10u8 => 0x32u8,
        11u8 => 0x74u8,
        12u8 => 0x76u8,
        13u8 => 0x64u8,
        14u8 => 0x77u8,
        15u8 => 0x30u8,
        16u8 => 0x73u8,
        17u8 => 0x33u8,
        18u8 => 0x6au8,
        19u8 => 0x6eu8,
        20u8 => 0x35u8,
        21u8 => 0x34u8,
        22u8 => 0x6bu8,
        23u8 => 0x68u8,
        24u8 => 0x63u8,
        25u8 => 0x65u8,
        26u8 => 0x36u8,
        27u8 => 0x6du8,
        28u8 => 0x75u8,
        29u8 => 0x61u8,
        30u8 => 0x37u8,
        _ => 0x6cu8,
    }
}

/// The symbol that a character stands for, if it is in the alphabet.
#[verifier::when_used_as_spec(symbol_of)]
pub fn decode_char(c: u8) -> (symbol: Option<u8>)
    ensures
        symbol == symbol_of(c),
{
    match c {
        0x71u8 => Some(0u8),
        0x70u8 => Some(1u8),
        0x7au8 => Some(2u8),
        0x72u8 => Some(3u8),
        0x79u8 => Some(4u8),
        0x39u8 => Some(5u8),
        0x78u8 => Some(6u8),
        0x38u8 => Some(7u8),
        0x67u8 => Some(8u8),
        0x66u8 => Some(9u8),
        0x32u8 => Some(10u8),
        0x74u8 => Some(11u8),
        0x76u8 => Some(12u8),
        0x64u8 => Some(13u8),
        0x77u8 => Some(14u8),
        0x30u8 => Some(15u8),
        0x73u8 => Some(16u8),
        0x33u8 => Some(17u8),
        0x6au8 => Some(18u8),
        0x6eu8 => Some(19u8),
        0x35u8 => Some(20u8),
        0x34u8 => Some(21u8),
        0x6bu8 => Some(22u8),
        0x68u8 => Some(23u8),
        0x63u8 => Some(24u8),
        0x65u8 => Some(25u8),
        0x36u8 => Some(26u8),
        0x6du8 => Some(27u8),
        0x75u8 => Some(28u8),
        0x61u8 => Some(29u8),
        0x37u8 => Some(30u8),
        0x6cu8 => Some(31u8),
        _ => None,
    }
}

/// Every element is a symbol: a number below 32.
pub open spec fn are_symbols(symbols: Seq<u8>) -> bool {
    forall|i: int| 0 <= i < symbols.len() ==> #[trigger] symbols[i] < 32
}

/// Every element is a character of the alphabet.
pub open spec fn in_alphabet(chars: Seq<u8>) -> bool {
    forall|i: int| 0 <= i < chars.len() ==> symbol_of(#[trigger] chars[i]) is Some
}

/// The characters that stand for the symbols.
pub open spec fn chars_of(symbols: Seq<u8>) -> Seq<u8> {
    symbols.map_values(|symbol: u8| char_of(symbol))
}

/// The symbols that the characters stand for.
pub open spec fn symbols_of(chars: Seq<u8>) -> Seq<u8> {
    chars.map_values(
        |c: u8|
            match symbol_of(c) {
                Some(symbol) => symbol,
                None => 0u8,
            },
    )
}

/// A prefix is one to 83 printable characters, none of them upper case.
pub open spec fn prefix_ok(prefix: Seq<u8>) -> bool {
    &&& 1 <= prefix.len() <= 83
    &&& forall|i: int|
        0 <= i < prefix.len() ==> 33 <= #[trigger] prefix[i] <= 126 && !(65 <= prefix[i] <= 90)
}

/// The prefix as the checksum sees it: the high bits of each character, a
/// zero, the low bits of each character.
pub open spec fn expand(prefix: Seq<u8>) -> Seq<u8> {
    prefix.map_values(|c: u8| c >> 5) + seq![0u8] + prefix.map_values(|c: u8| c & 31)
}

/// The checksum condition on a prefix and the symbols behind it.
pub open spec fn checksum_holds(prefix: Seq<u8>, symbols: Seq<u8>) -> bool {
    polymod_from(1, expand(prefix) + symbols) == 1
}

/// Six zero symbols.
pub open spec fn six_zeros() -> Seq<u8> {
    seq![0u8, 0u8, 0u8, 0u8, 0u8, 0u8]
}

/// The checksum state from which the six checksum symbols are taken.
pub open spec fn checksum_packed(prefix: Seq<u8>, payload: Seq<u8>) -> u32 {
    polymod_from(1, expand(prefix) + payload + six_zeros()) ^ 1
}

/// The six symbols that complete a prefix and payload.
pub open spec fn checksum_of(prefix: Seq<u8>, payload: Seq<u8>) -> Seq<u8> {
    Seq::new(6, |i: int| unpack_six(checksum_packed(prefix, payload), i as u32))
}

/// The place of the last separator in a text, or -1 if it has none.
pub open spec fn last_separator(text: Seq<u8>) -> int
    decreases text.len(),
{
    if text.len() == 0 {
        -1
    } else if text.last() == SEPARATOR {
        text.len() - 1
    } else {
        last_separator(text.drop_last())
    }
}

/// The prefix and payload that a text encodes, if it is a sound encoding:
/// a prefix, the last separator, at least six characters of the alphabet,
/// and a checksum that holds.
pub open spec fn decode_spec(text: Seq<u8>) -> Option<(Seq<u8>, Seq<u8>)> {
    let at = last_separator(text);
    if at < 0 {
        None
    } else {
        let prefix = text.take(at);
        let tail = text.skip(at + 1);
        if prefix_ok(prefix) && tail.len() >= 6 && in_alphabet(tail) && checksum_holds(
            prefix,
            symbols_of(tail),
        ) {
            Some((prefix, symbols_of(tail).take(tail.len() - 6)))
        } else {
            None
        }
    }
}

/// The text that encodes a prefix and a payload of symbols.
pub open spec fn encode_spec(prefix: Seq<u8>, payload: Seq<u8>) -> Seq<u8> {
    prefix + seq![SEPARATOR] + chars_of(payload + checksum_of(prefix, payload))
}

/// What six more symbols do to the checksum of a prefix and payload: they
/// add their packed number to what six zeros give.
proof fn lemma_six_more(prefix: Seq<u8>, payload: Seq<u8>, six: Seq<u8>)
    requires
        six.len() == 6,
        are_symbols(six),
    ensures
        polymod_from(1, expand(prefix) + (payload + six)) == polymod_from(
            1,
            expand(prefix) + payload + six_zeros(),
        ) ^ pack_six(six[0], six[1], six[2], six[3], six[4], six[5]),
        polymod_from(1, expand(prefix) + payload + six_zeros()) < 0x40000000u32,
{
    let front = expand(prefix) + payload;
    let state = polymod_from(1, front);
    assert(expand(prefix) + (payload + six) =~= front + six);
    lemma_polymod_concat(1, front, six);
    lemma_polymod_concat(1, front, six_zeros());
    lemma_polymod_six(state, six);
    lemma_polymod_six(state, six_zeros());
    lemma_six_rounds_linear(state, six[0], six[1], six[2], six[3], six[4], six[5]);
    lemma_step_bound(
        polymod_step(
            polymod_step(polymod_step(polymod_step(polymod_step(state, 0), 0), 0), 0),
            0,
        ),
        0,
    );
}

/// The checksum symbols are symbols, and with them the checksum holds.
pub proof fn lemma_checksum_completes(prefix: Seq<u8>, payload: Seq<u8>)
    ensures
        checksum_of(prefix, payload).len() == 6,
        are_symbols(checksum_of(prefix, payload)),
        checksum_holds(prefix, payload + checksum_of(prefix, payload)),
{
    let six = checksum_of(prefix, payload);
    let zeroed = polymod_from(1, expand(prefix) + payload + six_zeros());
    let packed = checksum_packed(prefix, payload);
    let front = expand(prefix) + payload;
    lemma_polymod_concat(1, front, six_zeros());
    lemma_polymod_six(polymod_from(1, front), six_zeros());
    lemma_step_bound(
        polymod_step(
            polymod_step(
                polymod_step(polymod_step(polymod_step(polymod_from(1, front), 0), 0), 0),
                0,
            ),
            0,
        ),
        0,
    );
    lemma_flip(zeroed, packed);
    lemma_pack_unpack(packed);
    assert(are_symbols(six));
    lemma_six_more(prefix, payload, six);
}

/// Only the checksum symbols make the checksum hold.
pub proof fn lemma_checksum_unique(prefix: Seq<u8>, payload: Seq<u8>, six: Seq<u8>)
    requires
        six.len() == 6,
        are_symbols(six),
        checksum_holds(prefix, payload + six),
    ensures
        six == checksum_of(prefix, payload),
{
    let zeroed = polymod_from(1, expand(prefix) + payload + six_zeros());
    let packed = pack_six(six[0], six[1], six[2], six[3], six[4], six[5]);
    lemma_six_more(prefix, payload, six);
    lemma_flip(zeroed, packed);
    lemma_unpack_pack(six[0], six[1], six[2], six[3], six[4], six[5]);
    assert(six =~= checksum_of(prefix, payload));
}

/// The characters of symbols are in the alphabet, stand for those symbols,
/// and hold no separator.
pub proof fn lemma_chars_of(symbols: Seq<u8>)
    requires
        are_symbols(symbols),
    ensures
        in_alphabet(chars_of(symbols)),
        symbols_of(chars_of(symbols)) == symbols,
        forall|i: int|
            0 <= i < symbols.len() ==> (#[trigger] chars_of(symbols)[i]) != SEPARATOR && 48
                <= chars_of(symbols)[i] <= 122,
{
    assert forall|i: int| 0 <= i < symbols.len() implies symbol_of(
        #[trigger] chars_of(symbols)[i],
    ) == Some(symbols[i]) && chars_of(symbols)[i] != SEPARATOR && 48 <= chars_of(symbols)[i]
        <= 122 by {
        lemma_char_of(symbols[i]);
    }
    assert(symbols_of(chars_of(symbols)) =~= symbols);
}

/// The symbols of characters of the alphabet are symbols, and their
/// characters are the ones they came from.
pub proof fn lemma_symbols_of(chars: Seq<u8>)
    requires
        in_alphabet(chars),
    ensures
        are_symbols(symbols_of(chars)),
        chars_of(symbols_of(chars)) == chars,
{
    assert forall|i: int| 0 <= i < chars.len() implies (#[trigger] symbols_of(chars)[i]) < 32
        && char_of(symbols_of(chars)[i]) == chars[i] by {
        lemma_symbol_of(chars[i]);
    }
    assert(chars_of(symbols_of(chars)) =~= chars);
}

/// The last separator is where a separator stands with none behind it.
pub proof fn lemma_last_separator(text: Seq<u8>, at: int)
    requires
        -1 <= at < text.len(),
        at >= 0 ==> text[at] == SEPARATOR,
        forall|i: int| at < i < text.len() ==> #[trigger] text[i] != SEPARATOR,
    ensures
        last_separator(text) == at,
    decreases text.len(),
{
    if text.len() > 0 && at < text.len() - 1 {
        lemma_last_separator(text.drop_last(), at);
    }
}

/// Where the last separator is found, a separator stands.
pub proof fn lemma_separator_found(text: Seq<u8>)
    ensures
        -1 <= last_separator(text) < text.len(),
        last_separator(text) >= 0 ==> text[last_separator(text)] == SEPARATOR,
    decreases text.len(),
{
    if text.len() > 0 && text.last() != SEPARATOR {
        lemma_separator_found(text.drop_last());
    }
}

/// Encoding, then decoding, gives back the prefix and the payload.
pub proof fn lemma_decode_encode(prefix: Seq<u8>, payload: Seq<u8>)
    requires
        prefix_ok(prefix),
        are_symbols(payload),
    ensures
        decode_spec(encode_spec(prefix, payload)) == Some((prefix, payload)),
{
    let six = checksum_of(prefix, payload);
    let symbols = payload + six;
    let text = encode_spec(prefix, payload);
    lemma_checksum_completes(prefix, payload);
    assert(are_symbols(symbols));
    lemma_chars_of(symbols);
    let at = prefix.len() as int;
    assert forall|i: int| at < i < text.len() implies #[trigger] text[i] != SEPARATOR by {
        assert(text[i] == chars_of(symbols)[i - at - 1]);
    }
    lemma_last_separator(text, at);
    assert(text.take(at) =~= prefix);
    assert(text.skip(at + 1) =~= chars_of(symbols));
    assert(symbols.take(symbols.len() - 6) =~= payload);
}

/// Decoding, then encoding, gives back the text.
pub proof fn lemma_encode_decode(text: Seq<u8>)
    requires
        decode_spec(text) is Some,
    ensures
        prefix_ok(decode_spec(text)->Some_0.0),
        are_symbols(decode_spec(text)->Some_0.1),
        encode_spec(decode_spec(text)->Some_0.0, decode_spec(text)->Some_0.1) == text,
{
    let at = last_separator(text);
    lemma_separator_found(text);
    let prefix = text.take(at);
    let tail = text.skip(at + 1);
    let symbols = symbols_of(tail);
    let payload = symbols.take(tail.len() - 6);
    let six = symbols.skip(tail.len() - 6);
    lemma_symbols_of(tail);
    assert(symbols =~= payload + six);
    assert(are_symbols(six)) by {
        assert forall|i: int| 0 <= i < six.len() implies #[trigger] six[i] < 32 by {
            assert(symbols[i + tail.len() - 6] < 32);
        }
    }
    assert(are_symbols(payload)) by {
        assert forall|i: int| 0 <= i < payload.len() implies #[trigger] payload[i] < 32 by {
            assert(symbols[i] < 32);
        }
    }
    lemma_checksum_unique(prefix, payload, six);
    assert(encode_spec(prefix, payload) =~= text);
}

/// Whether `prefix` can stand before the separator.
pub fn check_prefix(prefix: &[u8]) -> (ok: bool)
    ensures
        ok == prefix_ok(prefix@),
{
    if prefix.len() < 1 || prefix.len() > 83 {
        return false;
    }
    let mut i: usize = 0;
    while i < prefix.len()
        invariant
            i <= prefix@.len(),
            forall|j: int|
                0 <= j < i ==> 33 <= #[trigger] prefix@[j] <= 126 && !(65 <= prefix@[j] <= 90),
        decreases prefix@.len() - i,
    {
        let c = prefix[i];
        if c < 33 || c > 126 || (65 <= c && c <= 90) {
            return false;
        }
        i = i + 1;
    }
    true
}

/// The prefix as the checksum sees it.
fn expand_prefix(prefix: &[u8]) -> (expanded: Vec<u8>)
    ensures
        expanded@ == expand(prefix@),
{
    let mut expanded: Vec<u8> = Vec::new();
    let mut i: usize = 0;
    while i < prefix.len()
        invariant
            i <= prefix@.len(),
            expanded@ == prefix@.take(i as int).map_values(|c: u8| c >> 5),
        decreases prefix@.len() - i,
    {
        expanded.push(prefix[i] >> 5);
        proof {
            assert(expanded@ =~= prefix@.take(i + 1).map_values(|c: u8| c >> 5));
        }
        i = i + 1;
    }
    expanded.push(0u8);
    let mut j: usize = 0;
    proof {
        assert(prefix@.take(i as int) =~= prefix@);
        assert(expanded@ =~= prefix@.map_values(|c: u8| c >> 5) + seq![0u8] + prefix@.take(
            0,
        ).map_values(|c: u8| c & 31));
    }
    while j < prefix.len()
        invariant
            j <= prefix@.len(),
            expanded@ == prefix@.map_values(|c: u8| c >> 5) + seq![0u8] + prefix@.take(
                j as int,
            ).map_values(|c: u8| c & 31),
        decreases prefix@.len() - j,
    {
        expanded.push(prefix[j] & 31);
        proof {
            assert(expanded@ =~= prefix@.map_values(|c: u8| c >> 5) + seq![0u8] + prefix@.take(
                j + 1,
            ).map_values(|c: u8| c & 31));
        }
        j = j + 1;
    }
    proof {
        assert(prefix@.take(j as int) =~= prefix@);
    }
    expanded
}

/// Splits a text into its prefix and its payload, after checking its
/// shape, its characters and its checksum.
pub fn decode(text: &[u8]) -> (decoded: Option<(Vec<u8>, Vec<u8>)>)
    ensures
        match decode_spec(text@) {
            Some((prefix, payload)) => decoded is Some && decoded->Some_0.0@ == prefix
                && decoded->Some_0.1@ == payload,
            None => decoded is None,
        },
{
    let mut end: usize = text.len();
    while end > 0 && text[end - 1] != SEPARATOR
        invariant
            end <= text@.len(),
            forall|i: int| end <= i < text@.len() ==> #[trigger] text@[i] != SEPARATOR,
        decreases end,
    {
        end = end - 1;
    }
    proof {
        lemma_last_separator(text@, end - 1);
    }
    if end == 0 {
        return None;
    }
    let at: usize = end - 1;
    let prefix = slice_subrange(text, 0, at);
    let tail = slice_subrange(text, end, text.len());
    proof {
        assert(prefix@ =~= text@.take(at as int));
        assert(tail@ =~= text@.skip(at + 1));
    }
    if !check_prefix(prefix) || tail.len() < 6 {
        return None;
    }
    let mut symbols: Vec<u8> = Vec::new();
    let mut i: usize = 0;
    while i < tail.len()
        invariant
            i <= tail@.len(),
            last_separator(text@) == at,
            tail@ == text@.skip(at + 1),
            in_alphabet(tail@.take(i as int)),
            symbols@ == symbols_of(tail@.take(i as int)),
        decreases tail@.len() - i,
    {
        match decode_char(tail[i]) {
            Some(symbol) => {
                symbols.push(symbol);
                proof {
                    assert(tail@.take(i + 1) =~= tail@.take(i as int).push(tail@[i as int]));
                    assert(symbols@ =~= symbols_of(tail@.take(i + 1)));
                }
            },
            None => {
                assert(symbol_of(tail@[i as int]) is None);
                return None;
            },
        }
        i = i + 1;
    }
    proof {
        assert(tail@.take(i as int) =~= tail@);
    }
    let expanded = expand_prefix(prefix);
    let state = feed(feed(1u32, expanded.as_slice()), symbols.as_slice());
    proof {
        lemma_polymod_concat(1, expanded@, symbols@);
    }
    if state != 1 {
        return None;
    }
    let payload = copy(slice_subrange(symbols.as_slice(), 0, symbols.len() - 6));
    proof {
        assert(payload@ =~= symbols@.take(tail@.len() - 6));
    }
    Some((copy(prefix), payload))
}

/// Computes the six checksum symbols of a prefix and a payload.
pub fn checksum(prefix: &[u8], payload: &[u8]) -> (six: Vec<u8>)
    ensures
        six@ == checksum_of(prefix@, payload@),
{
    let expanded = expand_prefix(prefix);
    let zeros: [u8; 6] = [0u8, 0u8, 0u8, 0u8, 0u8, 0u8];
    let fed = feed(feed(feed(1u32, expanded.as_slice()), payload), zeros.as_slice());
    proof {
        assert(zeros@ =~= six_zeros());
        lemma_polymod_concat(1, expanded@, payload@);
        lemma_polymod_concat(1, expanded@ + payload@, six_zeros());
    }
    let packed: u32 = fed ^ 1;
    let mut six: Vec<u8> = Vec::new();
    let mut place: u32 = 0;
    while place < 6
        invariant
            place <= 6,
            packed == checksum_packed(prefix@, payload@),
            six@ == Seq::new(place as nat, |i: int| unpack_six(packed, i as u32)),
        decreases 6 - place,
    {
        let shift: u32 = (5 - place) * 5;
        let part: u32 = (packed >> shift) & 31;
        assert(part < 32) by (bit_vector)
            requires
                part == (packed >> shift) & 31,
        ;
        six.push(part as u8);
        proof {
            assert(six@ =~= Seq::new((place + 1) as nat, |i: int| unpack_six(packed, i as u32)));
        }
        place = place + 1;
    }
    proof {
        assert(six@ =~= checksum_of(prefix@, payload@));
    }
    six
}

/// Writes a prefix and a payload of symbols as text.
pub fn encode(prefix: &[u8], payload: &[u8]) -> (text: Vec<u8>)
    ensures
        text@ == encode_spec(prefix@, payload@),
{
    let six = checksum(prefix, payload);
    let mut text = join(prefix, [SEPARATOR].as_slice());
    let symbols = join(payload, six.as_slice());
    let mut i: usize = 0;
    proof {
        assert(text@ =~= prefix@ + seq![SEPARATOR] + chars_of(symbols@.take(0)));
    }
    while i < symbols.len()
        invariant
            i <= symbols@.len(),
            text@ == prefix@ + seq![SEPARATOR] + chars_of(symbols@.take(i as int)),
        decreases symbols@.len() - i,
    {
        text.push(encode_symbol(symbols[i]));
        proof {
            assert(text@ =~= prefix@ + seq![SEPARATOR] + chars_of(symbols@.take(i + 1)));
        }
        i = i + 1;
    }
    proof {
        assert(symbols@.take(i as int) =~= symbols@);
    }
    text
}

/// An upper-case letter.
pub open spec fn is_upper(c: u8) -> bool {
    65 <= c <= 90
}

/// A lower-case letter.
pub open spec fn is_lower(c: u8) -> bool {
    97 <= c <= 122
}

/// The character in lower case.
pub open spec fn lower(c: u8) -> u8 {
    if is_upper(c) {
        (c + 32) as u8
    } else {
        c
    }
}

/// The text in lower case.
pub open spec fn lowered(text: Seq<u8>) -> Seq<u8> {
    text.map_values(|c: u8| lower(c))
}

/// The text holds an upper-case letter.
pub open spec fn has_upper(text: Seq<u8>) -> bool {
    exists|i: int| 0 <= i < text.len() && is_upper(#[trigger] text[i])
}

/// The text holds a lower-case letter.
pub open spec fn has_lower(text: Seq<u8>) -> bool {
    exists|i: int| 0 <= i < text.len() && is_lower(#[trigger] text[i])
}

/// The prefix and payload that a text of one case encodes: a text all in
/// upper case stands for the same as the text in lower case, and a text of
/// mixed case stands for nothing.
pub open spec fn decode_any_case_spec(text: Seq<u8>) -> Option<(Seq<u8>, Seq<u8>)> {
    if has_upper(text) && has_lower(text) {
        None
    } else {
        decode_spec(lowered(text))
    }
}

/// A text without upper-case letters is its own lower-case form.
pub proof fn lemma_lowered_nothing(text: Seq<u8>)
    requires
        !has_upper(text),
    ensures
        lowered(text) == text,
        decode_any_case_spec(text) == decode_spec(text),
{
    assert forall|i: int| 0 <= i < text.len() implies lower(#[trigger] text[i]) == text[i] by {
        if is_upper(text[i]) {
            assert(has_upper(text));
        }
    }
    assert(lowered(text) =~= text);
}

/// An encoded text holds no upper-case letter.
pub proof fn lemma_encoded_is_lower(prefix: Seq<u8>, payload: Seq<u8>)
    requires
        prefix_ok(prefix),
        are_symbols(payload),
    ensures
        !has_upper(encode_spec(prefix, payload)),
{
    let behind = payload + checksum_of(prefix, payload);
    let text = encode_spec(prefix, payload);
    lemma_checksum_completes(prefix, payload);
    assert(are_symbols(behind));
    assert forall|i: int| 0 <= i < text.len() implies !is_upper(#[trigger] text[i]) by {
        if i < prefix.len() {
            assert(text[i] == prefix[i]);
        } else if i > prefix.len() {
            let k = i - prefix.len() - 1;
            assert(text[i] == char_of(behind[k]));
            lemma_char_of(behind[k]);
            assert(symbol_of(text[i]) is Some);
        }
    }
}

/// Brings a text to lower case, if it is of one case.
pub fn to_one_case(text: &[u8]) -> (lowercase: Option<Vec<u8>>)
    ensures
        match lowercase {
            Some(bytes) => !(has_upper(text@) && has_lower(text@)) && bytes@ == lowered(text@),
            None => has_upper(text@) && has_lower(text@),
        },
{
    let mut bytes: Vec<u8> = Vec::new();
    let mut upper: bool = false;
    let mut small: bool = false;
    let mut i: usize = 0;
    while i < text.len()
        invariant
            i <= text@.len(),
            bytes@ == lowered(text@.take(i as int)),
            upper == has_upper(text@.take(i as int)),
            small == has_lower(text@.take(i as int)),
        decreases text@.len() - i,
    {
        let c = text[i];
        let ghost before = text@.take(i as int);
        let ghost after = text@.take(i + 1);
        proof {
            assert(after =~= before.push(c));
            assert(has_upper(after) == (has_upper(before) || is_upper(c))) by {
                if has_upper(before) {
                    let j = choose|j: int| 0 <= j < before.len() && is_upper(#[trigger] before[j]);
                    assert(is_upper(after[j]));
                }
                if is_upper(c) {
                    assert(is_upper(after[i as int]));
                }
                if has_upper(after) {
                    let j = choose|j: int| 0 <= j < after.len() && is_upper(#[trigger] after[j]);
                    if j < i {
                        assert(is_upper(before[j]));
                    }
                }
            }
            assert(has_lower(after) == (has_lower(before) || is_lower(c))) by {
                if has_lower(before) {
                    let j = choose|j: int| 0 <= j < before.len() && is_lower(#[trigger] before[j]);
                    assert(is_lower(after[j]));
                }
                if is_lower(c) {
                    assert(is_lower(after[i as int]));
                }
                if has_lower(after) {
                    let j = choose|j: int| 0 <= j < after.len() && is_lower(#[trigger] after[j]);
                    if j < i {
                        assert(is_lower(before[j]));
                    }
                }
            }
        }
        if 65 <= c && c <= 90 {
            upper = true;
            bytes.push(c + 32);
        } else {
            if 97 <= c && c <= 122 {
                small = true;
            }
            bytes.push(c);
        }
        proof {
            assert(bytes@ =~= lowered(after));
        }
        i = i + 1;
    }
    proof {
        assert(text@.take(i as int) =~= text@);
    }
    if upper && small {
        None
    } else {
        Some(bytes)
    }
}

/// Splits a text of either case into its prefix and its payload.
pub fn decode_any_case(text: &[u8]) -> (decoded: Option<(Vec<u8>, Vec<u8>)>)
    ensures
        match decode_any_case_spec(text@) {
            Some((prefix, payload)) => decoded is Some && decoded->Some_0.0@ == prefix
                && decoded->Some_0.1@ == payload,
            None => decoded is None,
        },
{
    match to_one_case(text) {
        None => None,
        Some(lowercase) => decode(lowercase.as_slice()),
    }
}

} // verus!
