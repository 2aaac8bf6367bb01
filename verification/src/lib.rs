//! Verified logic of a media watch-party toolkit: the decisions behind
//! FFmpeg's custom I/O and fragment remuxing, and the port-mapping and TURN
//! configuration steps of the host application.
use vstd::prelude::*;

pub mod averror;
pub mod avio;
pub mod logger;
pub mod media;
pub mod portmap;
pub mod mapping;
pub mod turn;
pub mod paths;
pub mod host;

verus! {

/// Adds two unsigned numbers.
pub fn add(left: u64, right: u64) -> (sum: u64)
    requires
        left + right <= u64::MAX,
    ensures
        sum == left + right,
{
    left + right
}

} // verus!
