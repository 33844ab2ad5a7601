//! Layout of a ducking pass over the main buffer.
//!
//! The main buffer splits into three consecutive regions: the overlap with the
//! (aligned) sidechain, where the smoothed gain reduction is applied and the
//! sidechain is mixed in; a fade window, where the gain returns linearly to
//! unity; and a tail passed through at unity gain.

use vstd::prelude::*;
use crate::buffer::duck_lengths;
use crate::resample::{resampled_len, resampled_len_spec};

verus! {

/// What the ducking pass does at one index of the main buffer.
#[derive(Clone, Copy, Debug, PartialEq, Eq, Structural)]
pub enum DuckRegion {
    /// `main * gain + sidechain`, with the gain smoothed toward its target.
    Overlap,
    /// `main * (g + (1 - g) * step / len)`, where `g` is the gain at the end of
    /// the overlap; `step < len`.
    Fade { step: usize, len: usize },
    /// `main` unchanged.
    Pass,
}

pub open spec fn min_int(a: int, b: int) -> int {
    if a <= b { a } else { b }
}

/// Length of the overlap: the shorter of the two buffers.
pub open spec fn overlap_spec(main_len: int, side_len: int) -> int {
    min_int(main_len, side_len)
}

/// Length of the fade window: the release-derived sample count, bounded by what
/// is left of the main buffer after the overlap.
pub open spec fn fade_len_spec(main_len: int, side_len: int, fade_samples: int) -> int {
    min_int(fade_samples, main_len - overlap_spec(main_len, side_len))
}

pub open spec fn region_spec(i: int, main_len: int, side_len: int, fade_samples: int) -> DuckRegion {
    let o = overlap_spec(main_len, side_len);
    let f = fade_len_spec(main_len, side_len, fade_samples);
    if i < o {
        DuckRegion::Overlap
    } else if i < o + f {
        DuckRegion::Fade { step: (i - o) as usize, len: f as usize }
    } else {
        DuckRegion::Pass
    }
}

/// Number of main samples that overlap the sidechain.
pub fn overlap_len(main_len: usize, side_len: usize) -> (r: usize)
    ensures
        r == overlap_spec(main_len as int, side_len as int),
{
    if main_len <= side_len {
        main_len
    } else {
        side_len
    }
}

/// Number of main samples in the fade window after the overlap.
pub fn fade_len(main_len: usize, side_len: usize, fade_samples: usize) -> (r: usize)
    ensures
        r == fade_len_spec(main_len as int, side_len as int, fade_samples as int),
{
    let rest = main_len - overlap_len(main_len, side_len);
    if fade_samples <= rest {
        fade_samples
    } else {
        rest
    }
}

/// The region of main index `i`.
pub fn duck_region(i: usize, main_len: usize, side_len: usize, fade_samples: usize) -> (r: DuckRegion)
    requires
        i < main_len,
    ensures
        r == region_spec(i as int, main_len as int, side_len as int, fade_samples as int),
{
    let o = overlap_len(main_len, side_len);
    let f = fade_len(main_len, side_len, fade_samples);
    if i < o {
        DuckRegion::Overlap
    } else if i - o < f {
        DuckRegion::Fade { step: i - o, len: f }
    } else {
        DuckRegion::Pass
    }
}

/// After the sidechain ends, the gain returns linearly to unity: the fade starts
/// at the first index past the overlap, advances one step per sample over a
/// window of `min(fade_samples, main_len - overlap)` samples, and every later
/// index is passed through at unity gain.
pub proof fn lemma_fade_returns_to_unity(main_len: usize, side_len: usize, fade_samples: usize)
    ensures
        ({
            let o = overlap_spec(main_len as int, side_len as int);
            let f = fade_len_spec(main_len as int, side_len as int, fade_samples as int);
            &&& o == min_int(main_len as int, side_len as int)
            &&& f == min_int(fade_samples as int, main_len - o)
            &&& forall|i: int| 0 <= i < o ==> #[trigger] region_spec(i, main_len as int, side_len as int, fade_samples as int) == DuckRegion::Overlap
            &&& forall|i: int| o <= i < o + f ==> #[trigger] region_spec(i, main_len as int, side_len as int, fade_samples as int)
                == (DuckRegion::Fade { step: (i - o) as usize, len: f as usize })
            &&& forall|i: int| o + f <= i < main_len ==> #[trigger] region_spec(i, main_len as int, side_len as int, fade_samples as int) == DuckRegion::Pass
        }),
{
}

/// Integer shape of a ducking pass.
#[derive(Clone, Copy, Debug, PartialEq, Eq, Structural)]
pub struct DuckPlan {
    pub main_len: usize,
    pub side_len: usize,
    /// Whether the sidechain is resampled to the main rate.
    pub resample: bool,
    /// Number of sidechain samples at the main rate that the pass reads: the
    /// aligned sidechain, cut at the length of the main buffer.
    pub aligned_side_len: usize,
}

pub open spec fn abs_int(x: int) -> int {
    if x < 0 { -x } else { x }
}

/// Length of the sidechain at the main rate, cut at `main_len`.
///
/// At equal rates the sidechain is kept. Otherwise its aligned length is
/// `round(side_len * main_rate / side_rate)`: empty when that ratio is negative
/// or zero, and unbounded (so cut at `main_len`) when only the sidechain rate is
/// zero and the main rate is positive, since every output position then reads
/// source position zero.
pub open spec fn aligned_len_spec(side_len: int, side_rate: int, main_rate: int, main_len: int) -> int {
    if side_rate == main_rate {
        min_int(side_len, main_len)
    } else if side_rate == 0 {
        if main_rate > 0 { main_len } else { 0 }
    } else if (side_rate > 0 && main_rate > 0) || (side_rate < 0 && main_rate < 0) {
        min_int(resampled_len_spec(side_len, abs_int(side_rate), abs_int(main_rate)), main_len)
    } else {
        0
    }
}

fn magnitude(x: i32) -> (r: u32)
    ensures
        r == abs_int(x as int),
{
    if x < 0 {
        (-(x as i64)) as u32
    } else {
        x as u32
    }
}

/// Shape of a ducking pass over buffers of the given lengths and rates. There is
/// one exactly when both buffers hold samples; any pair of sample rates is
/// planned.
pub fn plan_ducking(main_len: i32, side_len: i32, main_rate: i32, side_rate: i32) -> (r: Option<DuckPlan>)
    ensures
        r is Some <==> main_len > 0 && side_len > 0,
        r matches Some(p) ==> {
            &&& p.main_len == main_len
            &&& p.side_len == side_len
            &&& p.resample == (main_rate != side_rate)
            &&& p.aligned_side_len == aligned_len_spec(
                side_len as int,
                side_rate as int,
                main_rate as int,
                main_len as int,
            )
        },
{
    let (m, s) = match duck_lengths(main_len, side_len) {
        Some(lens) => lens,
        None => return None,
    };
    let aligned: usize = if main_rate == side_rate {
        if s <= m { s } else { m }
    } else if side_rate == 0 {
        if main_rate > 0 { m } else { 0 }
    } else if (side_rate > 0 && main_rate > 0) || (side_rate < 0 && main_rate < 0) {
        let n = resampled_len(s, magnitude(side_rate), magnitude(main_rate));
        if n <= m as u128 { n as usize } else { m }
    } else {
        0
    };
    Some(DuckPlan { main_len: m, side_len: s, resample: main_rate != side_rate, aligned_side_len: aligned })
}

} // verus!
