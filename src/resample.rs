//! Geometry of a linear-interpolation resampler.
//!
//! A buffer of `src_len` samples at `src_rate` Hz becomes a buffer at `dst_rate`
//! Hz. Output sample `i` sits at the exact source position
//! `i * src_rate / dst_rate`; this module says which source samples it reads and
//! with which fractional weight. Applying the weights to sample values is left
//! to the caller.

use vstd::prelude::*;

verus! {

/// How one output sample is formed from the source buffer.
#[derive(Clone, Copy, Debug, PartialEq, Eq, Structural)]
pub enum Tap {
    /// `src[index] * (1 - num/den) + src[index + 1] * (num/den)`, with `num < den`.
    Blend { index: usize, num: u32, den: u32 },
    /// `src[index]`: the last source sample, with no right neighbour.
    Hold { index: usize },
    /// Zero: the position lies past the end of the source.
    Silence,
}

/// `n / d` rounded to the nearest integer, halves away from zero (`n >= 0`, `d > 0`).
pub open spec fn round_div(n: int, d: int) -> int {
    (2 * n + d) / (2 * d)
}

/// Length of the resampled buffer: `round(src_len * dst_rate / src_rate)`.
pub open spec fn resampled_len_spec(src_len: int, src_rate: int, dst_rate: int) -> int {
    round_div(src_len * dst_rate, src_rate)
}

/// The tap of output sample `i`: source position `i * src_rate / dst_rate`,
/// split into its integer part and its remainder over `dst_rate`.
pub open spec fn tap_spec(i: int, src_len: int, src_rate: int, dst_rate: int) -> Tap {
    let p = i * src_rate;
    let idx = p / dst_rate;
    let rem = p % dst_rate;
    if idx + 1 < src_len {
        Tap::Blend { index: idx as usize, num: rem as u32, den: dst_rate as u32 }
    } else if idx < src_len {
        Tap::Hold { index: idx as usize }
    } else {
        Tap::Silence
    }
}

/// Number of samples that `src_len` samples at `src_rate` become at `dst_rate`.
pub fn resampled_len(src_len: usize, src_rate: u32, dst_rate: u32) -> (r: u128)
    requires
        src_rate > 0,
    ensures
        r == resampled_len_spec(src_len as int, src_rate as int, dst_rate as int),
{
    proof {
        assert(src_len * dst_rate < 0x1_0000_0000_0000_0000_0000_0000) by (nonlinear_arith)
            requires
                src_len < 0x1_0000_0000_0000_0000,
                dst_rate < 0x1_0000_0000,
        ;
    }
    let n: u128 = (src_len as u128) * (dst_rate as u128);
    let d: u128 = src_rate as u128;
    (2 * n + d) / (2 * d)
}

/// Which source samples output sample `i` reads, and with which weight.
pub fn source_tap(i: usize, src_len: usize, src_rate: u32, dst_rate: u32) -> (t: Tap)
    requires
        dst_rate > 0,
    ensures
        t == tap_spec(i as int, src_len as int, src_rate as int, dst_rate as int),
{
    proof {
        assert(i * src_rate < 0x1_0000_0000_0000_0000_0000_0000) by (nonlinear_arith)
            requires
                i < 0x1_0000_0000_0000_0000,
                src_rate < 0x1_0000_0000,
        ;
    }
    let p: u128 = (i as u128) * (src_rate as u128);
    let d: u128 = dst_rate as u128;
    let idx: u128 = p / d;
    let rem: u128 = p % d;
    if idx + 1 < src_len as u128 {
        Tap::Blend { index: idx as usize, num: rem as u32, den: dst_rate }
    } else if idx < src_len as u128 {
        Tap::Hold { index: idx as usize }
    } else {
        Tap::Silence
    }
}

/// Resampling at equal rates is the identity: the length is kept, and output
/// sample `i` reads source sample `i` with full weight.
pub proof fn lemma_equal_rates_identity(src_len: usize, rate: u32)
    requires
        rate > 0,
    ensures
        resampled_len_spec(src_len as int, rate as int, rate as int) == src_len,
        forall|i: int|
            0 <= i < src_len ==> #[trigger] tap_spec(i, src_len as int, rate as int, rate as int)
                == if i + 1 < src_len {
                Tap::Blend { index: i as usize, num: 0, den: rate }
            } else {
                Tap::Hold { index: i as usize }
            },
{
    let r = rate as int;
    let n = src_len as int;
    assert((2 * (n * r) + r) / (2 * r) == n) by {
        assert(2 * (n * r) + r == n * (2 * r) + r) by (nonlinear_arith);
        vstd::arithmetic::div_mod::lemma_fundamental_div_mod_converse(2 * (n * r) + r, 2 * r, n, r);
    }
    assert forall|i: int| 0 <= i < src_len implies #[trigger] tap_spec(i, n, r, r) == if i + 1 < src_len {
        Tap::Blend { index: i as usize, num: 0, den: rate }
    } else {
        Tap::Hold { index: i as usize }
    } by {
        vstd::arithmetic::div_mod::lemma_fundamental_div_mod_converse(i * r, r, i, 0);
    }
}

} // verus!
