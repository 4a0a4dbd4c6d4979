//! Audio sample formats and the conversion to the canonical capture format.
//!
//! The playback pipeline hands the capture tee blocks of decoded samples in
//! one of two supported encodings: 16-bit signed integers or 32-bit IEEE-754
//! floats. The tee forwards every block in one canonical format, the 32-bit
//! float, carried here as its raw bit pattern (`u32`) so the conversion is
//! integer arithmetic that can be reasoned about exactly.

use vstd::prelude::*;
use vstd::arithmetic::div_mod::{lemma_div_by_multiple, lemma_div_is_ordered};
use vstd::arithmetic::mul::lemma_mul_inequality;
use vstd::arithmetic::power2::{lemma2_to64, lemma2_to64_rest, lemma_pow2_adds, lemma_pow2_strictly_increases, pow2};

verus! {

/// The sample encodings the playback pipeline can request. Only `S16` and
/// `F32` are supported by the capture-tee sink; the rest are refused at
/// construction time.
#[derive(Clone, Copy, PartialEq, Eq, Structural, Debug)]
pub enum AudioFormat {
    F64,
    F32,
    S32,
    S24,
    S24_3,
    S16,
}

/// A block of decoded samples as handed to the capture tee: either 16-bit
/// signed integers, or 32-bit floats given by their IEEE-754 bit patterns.
pub enum SampleChunk {
    S16(Vec<i16>),
    F32Bits(Vec<u32>),
}

/// The magnitude of a 16-bit sample.
pub open spec fn s16_abs(s: i16) -> nat {
    if s >= 0 {
        s as nat
    } else {
        (-(s as int)) as nat
    }
}

/// The number of binary digits of `a` (zero for zero).
pub open spec fn bit_len(a: nat) -> nat
    decreases a,
{
    if a == 0 {
        0
    } else {
        (1 + bit_len(a / 2)) as nat
    }
}

/// The significand of `a / 32767` rounded to 24 binary digits, to nearest;
/// the divisor is odd, so no tie can arise. For `a` in `1..=32768` the result
/// lies in `2^23 ..= 2^24`, with `2^24` exactly when `a / 32767` is a power of
/// two to more than 24 digits (that is, at `a == 32767`).
pub open spec fn rounded_significand(a: nat) -> nat {
    let n = a * pow2((39 - bit_len(a)) as nat);
    let q = n / 32767;
    if 2 * (n % 32767) > 32767 {
        (q + 1) as nat
    } else {
        q
    }
}

/// The IEEE-754 binary32 bit pattern of `s / 32767`, rounded to nearest: what
/// the playback pipeline's 16-bit samples become in the canonical capture
/// format. Zero maps to positive zero; otherwise the magnitude `a` gives the
/// unbiased exponent `bit_len(a) - 16` and a 24-digit rounded significand,
/// bumped one exponent up when rounding reaches `2^24`.
pub open spec fn f32_bits_of_s16(s: i16) -> u32 {
    if s == 0 {
        0
    } else {
        let a = s16_abs(s);
        let sign: nat = if s < 0 {
            pow2(31)
        } else {
            0
        };
        let m = rounded_significand(a);
        let biased = bit_len(a) + 111;  // (bit_len(a) - 16) + 127
        if m == pow2(24) {
            (sign + (biased + 1) * pow2(23)) as u32
        } else {
            (sign + biased * pow2(23) + (m - pow2(23))) as u32
        }
    }
}

proof fn lemma_bit_len_bounds(a: nat)
    requires
        a > 0,
    ensures
        pow2((bit_len(a) - 1) as nat) <= a < pow2(bit_len(a)),
    decreases a,
{
    lemma2_to64();
    if a > 1 {
        lemma_bit_len_bounds(a / 2);
        let b = bit_len(a / 2);
        lemma_pow2_adds((b - 1) as nat, 1);
        lemma_pow2_adds(b, 1);
        assert(pow2(b) == pow2((b - 1) as nat) * 2);
        assert(pow2((b + 1) as nat) == pow2(b) * 2);
        assert(a >= 2 * (a / 2));
        assert(a < 2 * (a / 2) + 2);
    } else {
        assert(bit_len(0nat) == 0);
    }
}

proof fn lemma_bit_len_at_most(a: nat, k: nat)
    requires
        a < pow2(k),
    ensures
        bit_len(a) <= k,
{
    if a > 0 {
        lemma_bit_len_bounds(a);
        if bit_len(a) > k {
            if (bit_len(a) - 1) as nat > k {
                lemma_pow2_strictly_increases(k, (bit_len(a) - 1) as nat);
            }
            assert(pow2(k) <= pow2((bit_len(a) - 1) as nat));
            assert(false);
        }
    }
}

/// The rounded significand of a sample magnitude fills exactly 24 binary
/// digits, reaching `2^24` only with a zero remainder (no rounding up).
proof fn lemma_significand_range(a: nat)
    requires
        1 <= a <= 32768,
    ensures
        pow2(23) <= rounded_significand(a) <= pow2(24),
{
    lemma2_to64();
    lemma2_to64_rest();
    let b = bit_len(a);
    let sh = (39 - b) as nat;
    lemma_bit_len_bounds(a);
    lemma_bit_len_at_most(a, 16);
    assert(b <= 16);
    let n = a * pow2(sh);
    let q = n / 32767;

    // Lower bound: a >= 2^(b-1), so n >= 2^38 >= 32767 * 2^23.
    lemma_mul_inequality(pow2((b - 1) as nat) as int, a as int, pow2(sh) as int);
    lemma_pow2_adds((b - 1) as nat, sh);
    assert(pow2((b - 1) as nat) * pow2(sh) == pow2(38));
    assert(n >= pow2(38));
    lemma_div_is_ordered(32767 * pow2(23) as int, n as int, 32767);
    lemma_div_by_multiple(pow2(23) as int, 32767);
    assert((32767 * pow2(23)) / 32767 == pow2(23));
    assert(q >= pow2(23));

    // Upper bound.
    if b <= 15 {
        // a <= 2^b - 1, so n <= 2^39 - 2^(39-b) <= 2^39 - 2^24 == 32767 * 2^24.
        lemma_mul_inequality(a as int, pow2(b) as int - 1, pow2(sh) as int);
        lemma_pow2_adds(b, sh);
        assert((pow2(b) - 1) * pow2(sh) == pow2(39) - pow2(sh)) by {
            assert((pow2(b) - 1) * pow2(sh) == pow2(b) * pow2(sh) - pow2(sh))
                by (nonlinear_arith);
        }
        assert(sh >= 24);
        if sh > 24 {
            lemma_pow2_strictly_increases(24, sh);
        }
        assert(pow2(sh) >= pow2(24));
        assert(n <= pow2(39) - pow2(24));
        assert(32767 * pow2(24) == pow2(39) - pow2(24));
        lemma_div_is_ordered(n as int, 32767 * pow2(24) as int, 32767);
        lemma_div_by_multiple(pow2(24) as int, 32767);
        assert(q <= pow2(24));
        if q == pow2(24) {
            // The division is exact there, so rounding cannot go past 2^24.
            vstd::arithmetic::div_mod::lemma_fundamental_div_mod(n as int, 32767);
            assert(n == 32767 * q + n % 32767);
            assert(n % 32767 == 0) by {
                if n % 32767 > 0 {
                    assert(n > 32767 * pow2(24));
                }
            }
        }
    } else {
        // b == 16: a <= 32768 == 2^15, sh == 23, n <= 2^38.
        assert(sh == 23);
        lemma_mul_inequality(a as int, pow2(15) as int, pow2(23) as int);
        lemma_pow2_adds(15, 23);
        assert(n <= pow2(38));
        lemma_div_is_ordered(n as int, pow2(38) as int, 32767);
        assert(32767 * 8388864 <= pow2(38) < 32767 * 8388865);
        lemma_div_by_multiple(8388864, 32767);
        lemma_div_is_ordered(32767 * 8388864int, pow2(38) as int, 32767);
        assert(pow2(38) as int / 32767 <= 8388864) by {
            if pow2(38) as int / 32767 > 8388864 {
                vstd::arithmetic::div_mod::lemma_fundamental_div_mod(pow2(38) as int, 32767);
            }
        }
        assert(q <= 8388864);
        assert(q + 1 < pow2(24));
    }
}

/// The canonical capture form of one 16-bit sample: the bit pattern of
/// `s / 32767` as a 32-bit float, rounded to nearest.
pub fn s16_to_f32_bits(s: i16) -> (r: u32)
    ensures
        r == f32_bits_of_s16(s),
{
    if s == 0 {
        return 0;
    }
    proof {
        lemma2_to64();
        lemma2_to64_rest();
    }
    let a: u64 = if s >= 0 {
        s as u64
    } else {
        (-(s as i32)) as u64
    };
    proof {
        assert(a == s16_abs(s));
        lemma_bit_len_at_most(a as nat, 16);
    }

    let mut b: u64 = 0;
    let mut x: u64 = a;
    while x > 0
        invariant
            bit_len(a as nat) == b + bit_len(x as nat),
            bit_len(a as nat) <= 16,
            x <= a,
            a <= 32768,
        decreases x,
    {
        x = x / 2;
        b = b + 1;
    }
    proof {
        assert(b == bit_len(a as nat));
        lemma_bit_len_at_most(a as nat, 16);
        lemma_bit_len_bounds(a as nat);
        assert(1 <= b <= 16);
    }

    let sh: u64 = 39 - b;
    let mut n: u64 = a;
    let mut k: u64 = 0;
    while k < sh
        invariant
            k <= sh,
            sh == 39 - b,
            1 <= b <= 16,
            a <= 32768,
            n == a as nat * pow2(k as nat),
        decreases sh - k,
    {
        proof {
            lemma2_to64();
            lemma2_to64_rest();
            lemma_mul_inequality(a as int, pow2(15) as int, pow2(k as nat) as int);
            if (k as nat) < 38 {
                lemma_pow2_strictly_increases(k as nat, 38);
            }
            lemma_mul_inequality(pow2(k as nat) as int, pow2(38) as int, pow2(15) as int);
            lemma_pow2_adds(15, 38);
            assert(n <= pow2(53));
        }
        n = n * 2;
        k = k + 1;
        proof {
            lemma_pow2_adds((k - 1) as nat, 1);
            lemma2_to64();
            assert(pow2(k as nat) == pow2((k - 1) as nat) * 2);
            assert(a as nat * pow2(k as nat) == (a as nat * pow2((k - 1) as nat)) * 2)
                by (nonlinear_arith)
                requires
                    pow2(k as nat) == pow2((k - 1) as nat) * 2,
            ;
        }
    }

    let q: u64 = n / 32767;
    let r2: u64 = n % 32767;
    let m: u64 = if 2 * r2 > 32767 {
        q + 1
    } else {
        q
    };
    proof {
        lemma_significand_range(a as nat);
        assert(m == rounded_significand(a as nat));
        assert(0x80_0000 <= m <= 0x100_0000);
    }

    let sign: u32 = if s < 0 {
        0x8000_0000
    } else {
        0
    };
    let biased: u32 = (b + 111) as u32;
    if m == 0x100_0000 {
        sign + (biased + 1) * 0x80_0000
    } else {
        sign + biased * 0x80_0000 + (m - 0x80_0000) as u32
    }
}

/// Converts a whole block to the canonical capture format: float blocks pass
/// through unchanged; 16-bit blocks are converted sample by sample.
pub fn canonical_samples(chunk: SampleChunk) -> (r: Vec<u32>)
    ensures
        match chunk {
            SampleChunk::F32Bits(v) => r@ == v@,
            SampleChunk::S16(v) => r@.len() == v@.len() && (forall|i: int|
                0 <= i < v@.len() ==> r@[i] == f32_bits_of_s16(#[trigger] v@[i])),
        },
{
    match chunk {
        SampleChunk::F32Bits(v) => v,
        SampleChunk::S16(v) => {
            let mut out: Vec<u32> = Vec::new();
            let mut i: usize = 0;
            while i < v.len()
                invariant
                    i <= v@.len(),
                    out@.len() == i,
                    forall|j: int| 0 <= j < i ==> out@[j] == f32_bits_of_s16(#[trigger] v@[j]),
                decreases v@.len() - i,
            {
                let bits = s16_to_f32_bits(v[i]);
                out.push(bits);
                i = i + 1;
            }
            out
        },
    }
}

} // verus!
