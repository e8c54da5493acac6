//! The checksum of the address encoding: a BCH code over 5-bit symbols,
//! computed in a 30-bit state.

use vstd::prelude::*;

verus! {

/// One round of the checksum: the state is shifted by one symbol, the
/// symbol is added, and the generator is folded in for each bit shifted out.
pub open spec fn polymod_step(state: u32, symbol: u8) -> u32 {
    let top = state >> 25;
    ((state & 0x1ffffff) << 5) ^ (symbol as u32) ^ (if top & 1 != 0 {
        0x3b6a57b2u32
    } else {
        0u32
    }) ^ (if top & 2 != 0 {
        0x26508e6du32
    } else {
        0u32
    }) ^ (if top & 4 != 0 {
        0x1ea119fau32
    } else {
        0u32
    }) ^ (if top & 8 != 0 {
        0x3d4233ddu32
    } else {
        0u32
    }) ^ (if top & 16 != 0 {
        0x2a1462b3u32
    } else {
        0u32
    })
}

/// The checksum state after `symbols` were fed in, starting from `state`.
pub open spec fn polymod_from(state: u32, symbols: Seq<u8>) -> u32
    decreases symbols.len(),
{
    if symbols.len() == 0 {
        state
    } else {
        polymod_step(polymod_from(state, symbols.drop_last()), symbols.last())
    }
}

/// Six rounds in a row.
pub open spec fn polymod_six(state: u32, s0: u8, s1: u8, s2: u8, s3: u8, s4: u8, s5: u8) -> u32 {
    polymod_step(
        polymod_step(
            polymod_step(polymod_step(polymod_step(polymod_step(state, s0), s1), s2), s3),
            s4,
        ),
        s5,
    )
}

/// Six symbols as one number, the first symbol highest.
pub open spec fn pack_six(s0: u8, s1: u8, s2: u8, s3: u8, s4: u8, s5: u8) -> u32 {
    ((s0 as u32) << 25) | ((s1 as u32) << 20) | ((s2 as u32) << 15) | ((s3 as u32) << 10) | ((
    s4 as u32) << 5) | (s5 as u32)
}

/// The symbol at place `place` of a packed number, place 0 highest.
pub open spec fn unpack_six(packed: u32, place: u32) -> u8 {
    ((packed >> ((5 - place) * 5) as u32) & 31) as u8
}

/// Six rounds are linear in the symbols fed: the symbols only add their
/// packed number to what six zero symbols give.
pub proof fn lemma_six_rounds_linear(state: u32, s0: u8, s1: u8, s2: u8, s3: u8, s4: u8, s5: u8)
    by (bit_vector)
    requires
        s0 < 32,
        s1 < 32,
        s2 < 32,
        s3 < 32,
        s4 < 32,
        s5 < 32,
    ensures
        polymod_six(state, s0, s1, s2, s3, s4, s5) == polymod_six(state, 0, 0, 0, 0, 0, 0)
            ^ pack_six(s0, s1, s2, s3, s4, s5),
{
}

/// The state never leaves 30 bits.
pub proof fn lemma_step_bound(state: u32, symbol: u8)
    by (bit_vector)
    ensures
        polymod_step(state, symbol) < 0x40000000u32,
{
}

/// Six symbols packed and unpacked are the same six symbols.
pub proof fn lemma_unpack_pack(s0: u8, s1: u8, s2: u8, s3: u8, s4: u8, s5: u8)
    by (bit_vector)
    requires
        s0 < 32,
        s1 < 32,
        s2 < 32,
        s3 < 32,
        s4 < 32,
        s5 < 32,
    ensures
        unpack_six(pack_six(s0, s1, s2, s3, s4, s5), 0) == s0,
        unpack_six(pack_six(s0, s1, s2, s3, s4, s5), 1) == s1,
        unpack_six(pack_six(s0, s1, s2, s3, s4, s5), 2) == s2,
        unpack_six(pack_six(s0, s1, s2, s3, s4, s5), 3) == s3,
        unpack_six(pack_six(s0, s1, s2, s3, s4, s5), 4) == s4,
        unpack_six(pack_six(s0, s1, s2, s3, s4, s5), 5) == s5,
{
}

/// A 30-bit number unpacked and packed is the same number, and each of
/// its six parts is a symbol.
pub proof fn lemma_pack_unpack(packed: u32)
    by (bit_vector)
    requires
        packed < 0x40000000u32,
    ensures
        pack_six(
            unpack_six(packed, 0),
            unpack_six(packed, 1),
            unpack_six(packed, 2),
            unpack_six(packed, 3),
            unpack_six(packed, 4),
            unpack_six(packed, 5),
        ) == packed,
        unpack_six(packed, 0) < 32,
        unpack_six(packed, 1) < 32,
        unpack_six(packed, 2) < 32,
        unpack_six(packed, 3) < 32,
        unpack_six(packed, 4) < 32,
        unpack_six(packed, 5) < 32,
{
}

/// Adding a number to a state gives 1 exactly when the number is the state
/// with its lowest bit flipped.
pub proof fn lemma_flip(state: u32, packed: u32)
    by (bit_vector)
    ensures
        (state ^ packed == 1) <==> (packed == state ^ 1),
        state < 0x40000000u32 ==> (state ^ 1) < 0x40000000u32,
{
}

/// Feeding two strings one after the other is feeding their concatenation.
pub proof fn lemma_polymod_concat(state: u32, first: Seq<u8>, second: Seq<u8>)
    ensures
        polymod_from(state, first + second) == polymod_from(
            polymod_from(state, first),
            second,
        ),
    decreases second.len(),
{
    if second.len() == 0 {
        assert(first + second =~= first);
    } else {
        lemma_polymod_concat(state, first, second.drop_last());
        assert((first + second).drop_last() =~= first + second.drop_last());
    }
}

/// Feeding a string of six symbols is six rounds.
pub proof fn lemma_polymod_six(state: u32, six: Seq<u8>)
    requires
        six.len() == 6,
    ensures
        polymod_from(state, six) == polymod_six(state, six[0], six[1], six[2], six[3], six[4], six[5]),
{
    let five = six.drop_last();
    let four = five.drop_last();
    let three = four.drop_last();
    let two = three.drop_last();
    let one = two.drop_last();
    assert(one.drop_last().len() == 0);
    assert(polymod_from(state, one.drop_last()) == state);
    assert(polymod_from(state, one) == polymod_step(state, six[0]));
    assert(polymod_from(state, two) == polymod_step(polymod_from(state, one), six[1]));
    assert(polymod_from(state, three) == polymod_step(polymod_from(state, two), six[2]));
    assert(polymod_from(state, four) == polymod_step(polymod_from(state, three), six[3]));
    assert(polymod_from(state, five) == polymod_step(polymod_from(state, four), six[4]));
}

/// One round, computed.
#[verifier::when_used_as_spec(polymod_step)]
pub fn step(state: u32, symbol: u8) -> (next: u32)
    ensures
        next == polymod_step(state, symbol),
{
    let top: u32 = state >> 25;
    let g0: u32 = if top & 1 != 0 { 0x3b6a57b2u32 } else { 0u32 };
    let g1: u32 = if top & 2 != 0 { 0x26508e6du32 } else { 0u32 };
    let g2: u32 = if top & 4 != 0 { 0x1ea119fau32 } else { 0u32 };
    let g3: u32 = if top & 8 != 0 { 0x3d4233ddu32 } else { 0u32 };
    let g4: u32 = if top & 16 != 0 { 0x2a1462b3u32 } else { 0u32 };
    ((state & 0x1ffffff) << 5) ^ (symbol as u32) ^ g0 ^ g1 ^ g2 ^ g3 ^ g4
}

/// Feeds a string of symbols into a state.
pub fn feed(state: u32, symbols: &[u8]) -> (next: u32)
    ensures
        next == polymod_from(state, symbols@),
{
    let mut next: u32 = state;
    let mut i: usize = 0;
    while i < symbols.len()
        invariant
            i <= symbols@.len(),
            next == polymod_from(state, symbols@.take(i as int)),
        decreases symbols@.len() - i,
    {
        proof {
            assert(symbols@.take(i + 1).drop_last() =~= symbols@.take(i as int));
        }
        next = step(next, symbols[i]);
        i = i + 1;
    }
    proof {
        assert(symbols@.take(i as int) =~= symbols@);
    }
    next
}

} // verus!
