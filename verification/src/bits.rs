//! Ordering and clamping of 32-bit parameter words.
//!
//! Every mutable DSP parameter is exchanged as the bit pattern of an IEEE-754
//! single-precision value held in a 32-bit word.  On such words the numeric
//! order of the encoded values (for every non-NaN pattern) coincides with the
//! order of an integer key: the magnitude bits, negated when the sign bit is
//! set.  Stating clamping over that key lets the whole parameter plane be
//! verified on plain integers, while the host layer keeps doing its sample
//! arithmetic on the decoded values.

use vstd::prelude::*;
use vstd::arithmetic::power2::pow2;

verus! {

/// Sign bit of an IEEE-754 single-precision pattern.
pub const F32_SIGN_MASK: u32 = 0x8000_0000;

/// Magnitude (exponent and mantissa) bits of a pattern.
pub const F32_MAG_MASK: u32 = 0x7FFF_FFFF;

/// Order key of a parameter word: patterns compare as the encoded values do
/// (two zero patterns, plus and minus zero, share the key 0).
pub open spec fn f32_key(bits: u32) -> int {
    if bits & F32_SIGN_MASK == 0 {
        (bits & F32_MAG_MASK) as int
    } else {
        -((bits & F32_MAG_MASK) as int)
    }
}

/// The word that a parameter store keeps after clamping `bits` into the
/// closed range whose endpoints are encoded by `lo` and `hi`.
pub open spec fn spec_clamp_bits(bits: u32, lo: u32, hi: u32) -> u32 {
    if f32_key(bits) < f32_key(lo) {
        lo
    } else if f32_key(bits) > f32_key(hi) {
        hi
    } else {
        bits
    }
}

/// Exec computation of the order key.
pub fn f32_key_exec(bits: u32) -> (k: i64)
    ensures
        k == f32_key(bits),
{
    let magnitude = bits & F32_MAG_MASK;
    proof {
        assert((bits & F32_MAG_MASK) <= 0x7FFF_FFFFu32) by (bit_vector);
    }
    if bits & F32_SIGN_MASK == 0 {
        magnitude as i64
    } else {
        -(magnitude as i64)
    }
}

/// Clamps a parameter word into `[lo, hi]` by the order of the encoded
/// values.  On every non-NaN pattern this is exactly `f32::clamp`; a NaN
/// pattern is forced to an endpoint instead of being kept.
pub fn clamp_bits(bits: u32, lo: u32, hi: u32) -> (r: u32)
    requires
        f32_key(lo) <= f32_key(hi),
    ensures
        r == spec_clamp_bits(bits, lo, hi),
        f32_key(lo) <= f32_key(r) <= f32_key(hi),
{
    let key = f32_key_exec(bits);
    if key < f32_key_exec(lo) {
        lo
    } else if key > f32_key_exec(hi) {
        hi
    } else {
        bits
    }
}

/// Evaluates the order key: positive patterns are their own key, negative
/// patterns the negated magnitude.
pub proof fn lemma_f32_key_values(bits: u32)
    ensures
        bits < 0x8000_0000 ==> f32_key(bits) == bits,
        bits >= 0x8000_0000 ==> f32_key(bits) == -((bits - 0x8000_0000) as int),
{
    assert(bits < 0x8000_0000 ==> (bits & 0x8000_0000u32) == 0 && (bits & 0x7FFF_FFFFu32)
        == bits) by (bit_vector);
    assert(bits >= 0x8000_0000 ==> (bits & 0x8000_0000u32) != 0 && (bits & 0x7FFF_FFFFu32) == bits
        - 0x8000_0000u32) by (bit_vector);
}

/// Clamping is idempotent: a word already produced by the clamp is kept.
pub proof fn lemma_clamp_bits_idempotent(bits: u32, lo: u32, hi: u32)
    requires
        f32_key(lo) <= f32_key(hi),
    ensures
        spec_clamp_bits(spec_clamp_bits(bits, lo, hi), lo, hi) == spec_clamp_bits(bits, lo, hi),
{
}

/// Doublings needed to bring `n` into the mantissa range
/// `[0x80_0000, 0x100_0000)`.
pub open spec fn norm_shifts(n: nat) -> nat
    recommends
        1 <= n < 0x0100_0000,
    decreases 0x0100_0000 - n,
{
    if n >= 0x0080_0000 || n == 0 {
        0
    } else {
        1 + norm_shifts(2 * n)
    }
}

/// The IEEE-754 single-precision pattern encoding the integer `n` exactly:
/// with `s` doublings bringing `n` to `v` in `[2^23, 2^24)`, the value is
/// `(v / 2^23) * 2^(23 - s)`, so the biased exponent is `150 - s` and the
/// mantissa field `v - 2^23`.
pub open spec fn spec_f32_bits_of_uint(n: u32) -> u32
    recommends
        1 <= n < 0x0100_0000,
{
    let s = norm_shifts(n as nat);
    (((150 - s) * 0x0080_0000 + (n * pow2(s) - 0x0080_0000)) % 0x1_0000_0000) as u32
}

/// Opens the encoding: the normalized value sits in the mantissa range,
/// at most 23 doublings are needed, and the pattern is the plain sum,
/// below the sign bit.
pub proof fn lemma_f32_bits_eval(n: u32)
    requires
        1 <= n < 0x0100_0000,
    ensures
        0x0080_0000 <= n * pow2(norm_shifts(n as nat)) < 0x0100_0000,
        norm_shifts(n as nat) <= 23,
        spec_f32_bits_of_uint(n) == (150 - norm_shifts(n as nat)) * 0x0080_0000 + n * pow2(
            norm_shifts(n as nat),
        ) - 0x0080_0000,
        spec_f32_bits_of_uint(n) < 0x8000_0000,
    decreases 0x0100_0000 - n,
{
    vstd::arithmetic::power2::lemma2_to64();
    let s = norm_shifts(n as nat);
    if n >= 0x0080_0000 {
        assert(n * pow2(0) == n);
    } else {
        lemma_f32_bits_eval((2 * n) as u32);
        let s2 = norm_shifts(2 * n as nat);
        vstd::arithmetic::power2::lemma_pow2_adds(s2, 1);
        assert(n * pow2(s2 + 1) == (2 * n) * pow2(s2)) by (nonlinear_arith)
            requires
                pow2(s2 + 1) == pow2(s2) * 2,
        ;
        if s2 + 1 > 23 {
            vstd::arithmetic::power2::lemma_pow2_strictly_increases(23, s2 + 1);
            assert(n * pow2(s2 + 1) >= pow2(s2 + 1)) by (nonlinear_arith)
                requires
                    n >= 1,
                    pow2(s2 + 1) >= 0,
            ;
            assert(false);
        }
    }
}

/// More doublings are needed for a smaller value.
pub proof fn lemma_norm_shifts_antitone(m: u32, n: u32)
    requires
        1 <= m <= n < 0x0100_0000,
    ensures
        norm_shifts(m as nat) >= norm_shifts(n as nat),
    decreases 0x0100_0000 - m,
{
    if m < 0x0080_0000 && n < 0x0080_0000 {
        lemma_norm_shifts_antitone((2 * m) as u32, (2 * n) as u32);
    }
}

/// The encoding respects integer order: a larger value has a larger
/// pattern.
pub proof fn lemma_f32_bits_of_uint_increases(m: u32, n: u32)
    requires
        1 <= m < n < 0x0100_0000,
    ensures
        spec_f32_bits_of_uint(m) < spec_f32_bits_of_uint(n),
{
    lemma_f32_bits_eval(m);
    lemma_f32_bits_eval(n);
    lemma_norm_shifts_antitone(m, n);
    let sm = norm_shifts(m as nat);
    let sn = norm_shifts(n as nat);
    if sm == sn {
        vstd::arithmetic::power2::lemma_pow2_pos(sm);
        assert(m * pow2(sm) < n * pow2(sm)) by (nonlinear_arith)
            requires
                m < n,
                pow2(sm) >= 1,
        ;
    }
}

/// Encodes an integer Hz value as the f32 pattern of its exact value.
pub fn f32_bits_of_uint(n: u32) -> (r: u32)
    requires
        1 <= n < 0x0100_0000,
    ensures
        r == spec_f32_bits_of_uint(n),
        r < 0x8000_0000,
{
    let mut v: u64 = n as u64;
    let mut shifts: u32 = 0;
    proof {
        vstd::arithmetic::power2::lemma2_to64();
    }
    while v < 0x0080_0000
        invariant
            1 <= v < 0x0100_0000,
            v == n as nat * pow2(shifts as nat),
            shifts <= 23,
            norm_shifts(n as nat) == shifts as nat + norm_shifts(v as nat),
        decreases 0x0100_0000 - v,
    {
        proof {
            vstd::arithmetic::power2::lemma2_to64();
            assert(pow2(shifts as nat + 1) == 2 * pow2(shifts as nat));
            if shifts >= 23 {
                if shifts > 23 {
                    vstd::arithmetic::power2::lemma_pow2_strictly_increases(23, shifts as nat);
                }
                assert(pow2(shifts as nat) >= 0x0080_0000);
                assert(v >= pow2(shifts as nat)) by (nonlinear_arith)
                    requires
                        v == n as nat * pow2(shifts as nat),
                        n >= 1,
                ;
                assert(false);
            }
            assert(n as nat * pow2(shifts as nat + 1) == 2 * (n as nat * pow2(shifts as nat)))
                by (nonlinear_arith)
                requires
                    pow2(shifts as nat + 1) == 2 * pow2(shifts as nat),
            ;
        }
        v = v * 2;
        shifts += 1;
    }
    proof {
        assert(norm_shifts(v as nat) == 0);
        assert(n as nat * pow2(shifts as nat) == v);
    }
    let exponent = 150 - shifts;
    let r = (exponent as u64) * 0x0080_0000 + (v - 0x0080_0000);
    proof {
        assert(r < 0x8000_0000);
    }
    r as u32
}

} // verus!
