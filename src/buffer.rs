//! Validation of buffer lengths received from a caller.

use vstd::prelude::*;

verus! {

/// A length given as a signed count is usable when it is positive; zero (and a
/// negative count, which names no buffer) means there is nothing to process.
pub fn buffer_len(len: i32) -> (r: Option<usize>)
    ensures
        len > 0 ==> r == Some(len as usize),
        len <= 0 ==> r is None,
{
    if len > 0 {
        Some(len as usize)
    } else {
        None
    }
}

/// The lengths of a ducking pass's main and sidechain buffers: both must be
/// present, else the pass yields no result.
pub fn duck_lengths(main_len: i32, side_len: i32) -> (r: Option<(usize, usize)>)
    ensures
        main_len > 0 && side_len > 0 ==> r == Some((main_len as usize, side_len as usize)),
        main_len <= 0 || side_len <= 0 ==> r is None,
{
    match (buffer_len(main_len), buffer_len(side_len)) {
        (Some(m), Some(s)) => Some((m, s)),
        _ => None,
    }
}

} // verus!
