//! Verified core of a tracker-module stem renderer.
//!
//! A module file is probed for its channel count, instrument count and
//! duration; a matrix of independent render tasks is derived from user
//! flags; each task's PCM buffer is sized, rendered by an external engine,
//! checked against a silence-skip policy and finally laid out for one of
//! several audio codecs.  Everything here is the decision and data-layout
//! logic of that pipeline; the engine itself and all file I/O live outside.

use vstd::prelude::*;

pub mod blocks;
pub mod digits;
pub mod mp3;
pub mod names;
pub mod plan;
pub mod render;
pub mod samples;
pub mod tasks;
pub mod wavfmt;

verus! {

/// Song metadata reported by the synthesis engine for one module file.
///
/// The duration is carried as a whole number of seconds, rounded up, which
/// is all the capacity computation and the validity rule need.
#[derive(Clone, Copy, Debug)]
pub struct SongMetadata {
    pub channel_count: u32,
    pub instrument_count: u32,
    pub duration_seconds_ceil: u32,
}

impl SongMetadata {
    /// A metadata record is usable only if the song has at least one
    /// channel, at least one instrument and a nonzero duration; an invalid
    /// record terminates processing of that file.
    pub open spec fn is_valid_spec(self) -> bool {
        self.channel_count > 0 && self.instrument_count > 0 && self.duration_seconds_ceil > 0
    }

    pub fn is_valid(&self) -> (r: bool)
        ensures
            r == self.is_valid_spec(),
    {
        self.channel_count > 0 && self.instrument_count > 0 && self.duration_seconds_ceil > 0
    }
}

} // verus!
