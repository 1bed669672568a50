//! Single-precision (IEEE 754 binary32) numbers, held as their 32-bit patterns.
//!
//! Every number that travels through this crate (tensor samples, scores) is a
//! `u32` holding the bit pattern of a binary32 value. This module says what
//! such a pattern denotes and provides the few operations the crate needs:
//! assembling a pattern from little-endian bytes, comparing a value against
//! one half, and scaling an 8-bit sample into the unit interval.

use vstd::arithmetic::power2::{
    lemma2_to64, lemma_pow2_adds, lemma_pow2_pos, lemma_pow2_strictly_increases, lemma_pow2_unfold,
    pow2,
};
use vstd::prelude::*;

verus! {

/// The pattern of `0.0`.
pub const ZERO: u32 = 0;

/// The pattern of `0.5`.
pub const HALF: u32 = 0x3F00_0000;

/// The pattern of `1.0`.
pub const ONE: u32 = 0x3F80_0000;

/// The pattern of positive infinity.
pub const INFINITY: u32 = 0x7F80_0000;

/// The sign bit: 1 for negative patterns.
pub open spec fn sign_bit(bits: u32) -> int {
    bits as int / 0x8000_0000
}

/// The eight exponent bits, as stored (biased by 127).
pub open spec fn biased_exponent(bits: u32) -> int {
    (bits as int / 0x80_0000) % 0x100
}

/// The twenty-three fraction bits.
pub open spec fn fraction(bits: u32) -> int {
    bits as int % 0x80_0000
}

/// Not a number: all exponent bits set and a non-zero fraction.
pub open spec fn is_nan(bits: u32) -> bool {
    biased_exponent(bits) == 255 && fraction(bits) != 0
}

/// An infinity: all exponent bits set and a zero fraction.
pub open spec fn is_infinite(bits: u32) -> bool {
    biased_exponent(bits) == 255 && fraction(bits) == 0
}

/// Neither an infinity nor a NaN.
pub open spec fn is_finite(bits: u32) -> bool {
    biased_exponent(bits) < 255
}

/// The significand of a finite pattern, in units of its last place: the
/// fraction, with the implicit leading bit for normal numbers.
pub open spec fn significand(bits: u32) -> int {
    if biased_exponent(bits) == 0 {
        fraction(bits)
    } else {
        0x80_0000 + fraction(bits)
    }
}

/// The power of two by which the significand of a finite pattern is scaled,
/// counted from the spacing of the subnormal numbers, `2^-149`.
pub open spec fn scale(bits: u32) -> nat {
    if biased_exponent(bits) == 0 {
        0
    } else {
        (biased_exponent(bits) - 1) as nat
    }
}

/// The absolute value that a finite pattern denotes, times `2^149`. It is
/// always an integer: `significand * 2^scale`.
pub open spec fn magnitude(bits: u32) -> nat {
    (significand(bits) * pow2(scale(bits))) as nat
}

/// The pattern denotes a value `>= 0.5`, by the IEEE comparison: a NaN
/// compares false, positive infinity true.
pub open spec fn at_least_half(bits: u32) -> bool {
    &&& !is_nan(bits)
    &&& sign_bit(bits) == 0
    &&& (is_infinite(bits) || magnitude(bits) >= pow2(148))
}

/// The pattern denotes a value in `[0.0, 1.0]`; negative zero counts as zero.
pub open spec fn in_unit_interval(bits: u32) -> bool {
    &&& is_finite(bits)
    &&& magnitude(bits) <= pow2(149)
    &&& (sign_bit(bits) == 0 || magnitude(bits) == 0)
}

/// The value of four bytes read as one little-endian 32-bit word.
pub open spec fn le_word(b0: u8, b1: u8, b2: u8, b3: u8) -> int {
    b0 + 0x100 * b1 + 0x1_0000 * b2 + 0x100_0000 * b3
}

/// The words of a byte sequence: word `i` is made of bytes `4i .. 4i + 4`,
/// least significant first. Trailing bytes that do not fill a word are left
/// out.
pub open spec fn le_words(bytes: Seq<u8>) -> Seq<u32> {
    Seq::new(
        (bytes.len() / 4) as nat,
        |i: int| le_word(bytes[4 * i], bytes[4 * i + 1], bytes[4 * i + 2], bytes[4 * i + 3]) as u32,
    )
}

/// Doubles `scaled` until it reaches 255, counting the doublings on top of
/// `shift`. Gives the final value and count.
pub open spec fn normalise(scaled: nat, shift: nat) -> (nat, nat)
    decreases 510 - scaled,
{
    if 0 < scaled < 255 {
        normalise(2 * scaled, shift + 1)
    } else {
        (scaled, shift)
    }
}

/// The integer nearest to `scaled * 2^23 / 255`. The quotient is never
/// halfway between two integers, because 255 is odd.
pub open spec fn rounded_significand(scaled: nat) -> int {
    (scaled as int * 0x100_0000 + 255) / 510
}

/// The pattern of the binary32 value nearest to `sample / 255`.
///
/// For a non-zero sample, `sample / 255` is written as `n / 255 * 2^-s` with
/// `255 <= n < 510`, so that `n / 255` lies in `[1, 2)`; the exponent field is
/// then `127 - s` and the significand is `n * 2^23 / 255`, rounded to nearest.
pub open spec fn unit_scaled(sample: u8) -> u32 {
    if sample == 0 {
        ZERO
    } else {
        let (n, s) = normalise(sample as nat, 0);
        ((127 - s) * 0x80_0000 + (rounded_significand(n) - 0x80_0000)) as u32
    }
}

/// What `normalise` returns: the input times a power of two, brought into
/// `[255, 510)`.
pub proof fn lemma_normalise(scaled: nat, shift: nat)
    requires
        0 < scaled < 510,
    ensures
        255 <= normalise(scaled, shift).0 < 510,
        shift <= normalise(scaled, shift).1,
        normalise(scaled, shift).0 == scaled * pow2((normalise(scaled, shift).1 - shift) as nat),
        scaled < 255 ==> normalise(scaled, shift).1 > shift,
        scaled >= 255 ==> normalise(scaled, shift) == (scaled, shift),
    decreases 510 - scaled,
{
    lemma2_to64();
    if scaled >= 255 {
        assert(scaled * pow2(0) == scaled) by (nonlinear_arith)
            requires
                pow2(0) == 1,
        ;
    } else {
        lemma_normalise(2 * scaled, shift + 1);
        let (n, s) = normalise(2 * scaled, shift + 1);
        let k = (s - shift - 1) as nat;
        lemma_pow2_unfold(k + 1);
        assert(n == scaled * pow2(k + 1)) by (nonlinear_arith)
            requires
                n == (2 * scaled) * pow2(k),
                pow2(k + 1) == 2 * pow2(k),
        ;
    }
}

/// A non-zero sample is doubled at most eight times.
pub proof fn lemma_normalise_shift(sample: u8)
    requires
        sample > 0,
    ensures
        normalise(sample as nat, 0).1 <= 8,
        normalise(sample as nat, 0).1 == 0 <==> sample == 255,
{
    lemma_normalise(sample as nat, 0);
    let (n, s) = normalise(sample as nat, 0);
    lemma2_to64();
    lemma_pow2_pos(s);
    if s > 8 {
        if s > 9 {
            lemma_pow2_strictly_increases(9, s);
        }
        assert(sample * pow2(s) >= pow2(s)) by (nonlinear_arith)
            requires
                sample >= 1,
        ;
    }
}

/// The fields of a scaled sample: positive, normal, with the exponent and
/// significand that `unit_scaled` describes.
pub proof fn lemma_unit_scaled_fields(sample: u8)
    requires
        sample > 0,
    ensures
        sign_bit(unit_scaled(sample)) == 0,
        biased_exponent(unit_scaled(sample)) == 127 - normalise(sample as nat, 0).1,
        119 <= biased_exponent(unit_scaled(sample)) <= 127,
        significand(unit_scaled(sample)) == rounded_significand(normalise(sample as nat, 0).0),
        0x80_0000 <= significand(unit_scaled(sample)) < 0x100_0000,
{
    lemma_normalise(sample as nat, 0);
    lemma_normalise_shift(sample);
}

/// Scaling keeps a sample inside the unit interval, and reaches its ends only
/// for the smallest and the largest sample.
pub proof fn lemma_unit_scaled_range(sample: u8)
    ensures
        unit_scaled(sample) <= ONE,
        in_unit_interval(unit_scaled(sample)),
        unit_scaled(sample) == ZERO <==> sample == 0,
        unit_scaled(sample) == ONE <==> sample == 255,
{
    lemma2_to64();
    if sample > 0 {
        lemma_normalise(sample as nat, 0);
        lemma_normalise_shift(sample);
        lemma_unit_scaled_fields(sample);
    }
    lemma_unit_interval(unit_scaled(sample));
}

/// Scaling is correctly rounded: the value of the pattern differs from
/// `sample / 255` by less than half the spacing of binary32 numbers at that
/// magnitude. Stated in units of `2^-149` and multiplied out by `2 * 255`.
pub proof fn lemma_unit_scaled_nearest(sample: u8)
    ensures
        is_finite(unit_scaled(sample)),
        sign_bit(unit_scaled(sample)) == 0,
        -255 * pow2(scale(unit_scaled(sample))) < 2 * (255 * magnitude(unit_scaled(sample))
            - sample * pow2(149)) < 255 * pow2(scale(unit_scaled(sample))),
{
    lemma2_to64();
    if sample == 0 {
        lemma_pow2_pos(0);
        assert(magnitude(ZERO) == 0) by (nonlinear_arith)
            requires
                magnitude(ZERO) == 0 * pow2(0),
        ;
    } else {
        lemma_normalise(sample as nat, 0);
        lemma_normalise_shift(sample);
        lemma_unit_scaled_fields(sample);
        let bits = unit_scaled(sample);
        let (n, s) = normalise(sample as nat, 0);
        let q = rounded_significand(n);
        let p = pow2(scale(bits));
        lemma_pow2_pos(scale(bits));
        assert(scale(bits) == 126 - s);
        lemma_pow2_adds(s, (126 - s) as nat);
        lemma_pow2_adds(23, 126);
        assert(pow2(149) == 0x80_0000 * (pow2(s) * p));
        assert(magnitude(bits) == q * p);
        // sample * 2^149 is n * 2^23 in units of the pattern's spacing
        assert(sample * pow2(149) == (n * 0x80_0000) * p) by (nonlinear_arith)
            requires
                n == sample * pow2(s),
                pow2(149) == 0x80_0000 * (pow2(s) * p),
        ;
        let d = 2 * (255 * q - n * 0x80_0000);
        assert(-255 < d < 255);
        assert(2 * (255 * magnitude(bits) - sample * pow2(149)) == d * p) by (nonlinear_arith)
            requires
                magnitude(bits) == q * p,
                sample * pow2(149) == (n * 0x80_0000) * p,
                d == 2 * (255 * q - n * 0x80_0000),
        ;
        assert(-255 * p < d * p < 255 * p) by (nonlinear_arith)
            requires
                -255 < d < 255,
                p > 0,
        ;
    }
}

/// The patterns from `ZERO` to `ONE` are exactly the non-negative patterns in
/// the unit interval.
pub proof fn lemma_unit_interval(bits: u32)
    ensures
        bits <= ONE <==> sign_bit(bits) == 0 && in_unit_interval(bits),
{
    lemma2_to64();
    let e = biased_exponent(bits);
    let m = significand(bits);
    let p = pow2(scale(bits));
    lemma_pow2_pos(scale(bits));
    lemma_pow2_pos(126);
    lemma_pow2_adds(23, 126);
    lemma_pow2_adds(24, 125);
    if sign_bit(bits) == 0 && e < 255 {
        if e <= 126 {
            // below one: the significand is under 2^24 and the scale at most 125
            if scale(bits) < 125 {
                lemma_pow2_strictly_increases(scale(bits), 125);
            }
            assert(m * p < 0x100_0000 * pow2(125)) by (nonlinear_arith)
                requires
                    0 <= m < 0x100_0000,
                    0 < p <= pow2(125),
            ;
        } else {
            if scale(bits) > 126 {
                lemma_pow2_strictly_increases(126, scale(bits));
            }
            assert(m * p >= 0x80_0000 * pow2(126) && (m * p == 0x80_0000 * pow2(126) ==> m
                == 0x80_0000 && p == pow2(126))) by (nonlinear_arith)
                requires
                    m >= 0x80_0000,
                    p >= pow2(126),
                    pow2(126) > 0,
            ;
            if e > 127 {
                lemma_pow2_strictly_increases(126, scale(bits));
            }
        }
    }
}

/// Comparing patterns as integers decides the comparison against one half.
pub proof fn lemma_at_least_half(bits: u32)
    ensures
        at_least_half(bits) <==> HALF <= bits <= INFINITY,
{
    lemma2_to64();
    let e = biased_exponent(bits);
    let m = significand(bits);
    let p = pow2(scale(bits));
    lemma_pow2_pos(scale(bits));
    lemma_pow2_pos(125);
    lemma_pow2_adds(23, 125);
    lemma_pow2_adds(24, 124);
    if sign_bit(bits) == 0 && e < 255 {
        if e <= 125 {
            if scale(bits) < 124 {
                lemma_pow2_strictly_increases(scale(bits), 124);
            }
            assert(m * p < 0x100_0000 * pow2(124)) by (nonlinear_arith)
                requires
                    0 <= m < 0x100_0000,
                    0 < p <= pow2(124),
            ;
        } else {
            if scale(bits) > 125 {
                lemma_pow2_strictly_increases(125, scale(bits));
            }
            assert(m * p >= 0x80_0000 * pow2(125)) by (nonlinear_arith)
                requires
                    m >= 0x80_0000,
                    p >= pow2(125),
                    pow2(125) > 0,
            ;
        }
    }
}

/// Whether the value of a pattern is at least one half.
pub fn is_at_least_half(bits: u32) -> (r: bool)
    ensures
        r == at_least_half(bits),
{
    proof {
        lemma_at_least_half(bits);
    }
    HALF <= bits && bits <= INFINITY
}

/// Scales an 8-bit sample from `[0, 255]` to `[0.0, 1.0]`: the pattern of the
/// binary32 value nearest to `sample / 255`.
pub fn scale_sample(sample: u8) -> (bits: u32)
    ensures
        bits == unit_scaled(sample),
        bits <= ONE,
        in_unit_interval(bits),
{
    proof {
        lemma_unit_scaled_range(sample);
    }
    if sample == 0 {
        return ZERO;
    }
    proof {
        lemma_normalise_shift(sample);
    }
    let mut scaled: u64 = sample as u64;
    let mut shift: u64 = 0;
    while scaled < 255
        invariant
            0 < scaled < 510,
            normalise(scaled as nat, shift as nat) == normalise(sample as nat, 0),
            normalise(sample as nat, 0).1 <= 8,
            shift <= normalise(sample as nat, 0).1,
        decreases 510 - scaled,
    {
        proof {
            lemma_normalise(scaled as nat, shift as nat);
        }
        scaled = scaled * 2;
        shift = shift + 1;
    }
    proof {
        lemma_normalise(scaled as nat, shift as nat);
        lemma_normalise(sample as nat, 0);
    }
    let significand: u64 = (scaled * 0x100_0000 + 255) / 510;
    let bits: u64 = (127 - shift) * 0x80_0000 + (significand - 0x80_0000);
    bits as u32
}

/// Reads the first four bytes of `bytes` as a little-endian word, with
/// `byteorder::LittleEndian::read_u32`. That function panics on fewer than
/// four bytes, which the precondition rules out; its result is the word whose
/// least significant byte comes first.
#[verifier::external_body]
pub(crate) fn read_le_word(bytes: &[u8]) -> (word: u32)
    requires
        bytes@.len() >= 4,
    ensures
        word == le_word(bytes@[0], bytes@[1], bytes@[2], bytes@[3]),
{
    <byteorder::LittleEndian as byteorder::ByteOrder>::read_u32(bytes)
}

/// Decodes a packed buffer of little-endian binary32 values, one every four
/// bytes, in order. Bytes after the last whole word are ignored.
pub fn decode_le_words(bytes: &[u8]) -> (words: Vec<u32>)
    ensures
        words@ == le_words(bytes@),
{
    let count = bytes.len() / 4;
    let mut words: Vec<u32> = Vec::with_capacity(count);
    let mut index: usize = 0;
    while index < count
        invariant
            count == bytes@.len() / 4,
            bytes@.len() <= usize::MAX,
            index <= count,
            words@.len() == index,
            forall|i: int| 0 <= i < index ==> words@[i] == le_words(bytes@)[i],
        decreases count - index,
    {
        let start = index * 4;
        let chunk = &bytes[start..start + 4];
        let word = read_le_word(chunk);
        assert(chunk@ == bytes@.subrange(start as int, start + 4));
        words.push(word);
        index = index + 1;
    }
    assert(words@ =~= le_words(bytes@));
    words
}

} // verus!
