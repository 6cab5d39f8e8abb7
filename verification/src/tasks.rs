//! The render-task matrix: which stems are rendered for one module file.
//!
//! From the song metadata and the user's flags this derives the set of
//! independent render tasks: the full mix, one task per instrument, or one
//! task per (channel, instrument) pair.  Tasks carry no shared state; the
//! grid ordering puts the channel in the fast-varying position.

use vstd::prelude::*;
use crate::SongMetadata;

verus! {

/// Picks either every channel (or instrument) of the song, or a single one
/// by its zero-based index.
#[derive(Clone, Copy, Debug, PartialEq, Eq, Structural)]
pub enum Selector {
    All,
    One(u32),
}

/// One unit of output: which channel and instrument to isolate, and whether
/// the engine renders to two output channels.
#[derive(Clone, Copy, Debug, PartialEq, Eq, Structural)]
pub struct RenderTask {
    pub channel: Selector,
    pub instrument: Selector,
    pub stereo: bool,
}

/// The user's choice of which stems to produce and the global mono/stereo
/// preference for the isolated stems.
#[derive(Clone, Copy, Debug, PartialEq, Eq, Structural)]
pub struct RenderFlags {
    pub render_full: bool,
    pub render_per_channel: bool,
    pub render_per_instrument: bool,
    pub stereo: bool,
}

/// The full mix renders every channel and instrument and is always stereo,
/// whatever the global mono/stereo preference says.
pub open spec fn full_mix_task() -> RenderTask {
    RenderTask { channel: Selector::All, instrument: Selector::All, stereo: true }
}

/// Grid task for one flat index: the channel varies fastest, so
/// `instrument = index / channel_count` and `channel = index % channel_count`.
pub open spec fn per_channel_task(index: int, channel_count: int, stereo: bool) -> RenderTask {
    RenderTask {
        channel: Selector::One((index % channel_count) as u32),
        instrument: Selector::One((index / channel_count) as u32),
        stereo,
    }
}

/// Task isolating one instrument across all channels.
pub open spec fn per_instrument_task(instrument: int, stereo: bool) -> RenderTask {
    RenderTask { channel: Selector::All, instrument: Selector::One(instrument as u32), stereo }
}

/// The whole task matrix for one file.  The full-mix flag is additive with
/// the grid flags; the per-channel grid takes precedence over the
/// per-instrument list when both are set.
pub open spec fn task_matrix(meta: SongMetadata, flags: RenderFlags) -> Seq<RenderTask> {
    let full: Seq<RenderTask> = if flags.render_full {
        seq![full_mix_task()]
    } else {
        Seq::empty()
    };
    let grid: Seq<RenderTask> = if flags.render_per_channel {
        Seq::new(
            (meta.channel_count * meta.instrument_count) as nat,
            |k: int| per_channel_task(k, meta.channel_count as int, flags.stereo),
        )
    } else if flags.render_per_instrument {
        Seq::new(meta.instrument_count as nat, |i: int| per_instrument_task(i, flags.stereo))
    } else {
        Seq::empty()
    };
    full + grid
}

/// Derives the grid task for one flat index of the (channel, instrument)
/// grid, exactly as `per_channel_task` states it.
pub fn task_for_index(index: u64, channel_count: u32, stereo: bool) -> (t: RenderTask)
    requires
        channel_count > 0,
        index / (channel_count as u64) < u32::MAX as u64 + 1,
    ensures
        t == per_channel_task(index as int, channel_count as int, stereo),
{
    let channel: u32 = (index % (channel_count as u64)) as u32;
    let instrument: u32 = (index / (channel_count as u64)) as u32;
    RenderTask { channel: Selector::One(channel), instrument: Selector::One(instrument), stereo }
}

/// Builds the task matrix for one file.
pub fn build_tasks(meta: &SongMetadata, flags: RenderFlags) -> (tasks: Vec<RenderTask>)
    requires
        meta.is_valid_spec(),
        meta.channel_count * meta.instrument_count <= usize::MAX,
    ensures
        tasks@ == task_matrix(*meta, flags),
{
    let mut tasks: Vec<RenderTask> = Vec::new();
    if flags.render_full {
        tasks.push(RenderTask {
            channel: Selector::All,
            instrument: Selector::All,
            stereo: true,
        });
    }
    let ghost full: Seq<RenderTask> = if flags.render_full {
        seq![full_mix_task()]
    } else {
        Seq::empty()
    };
    assert(tasks@ =~= full);
    if flags.render_per_channel {
        let cc: u64 = meta.channel_count as u64;
        let total: u64 = cc * (meta.instrument_count as u64);
        let mut k: u64 = 0;
        while k < total
            invariant
                cc == meta.channel_count,
                cc > 0,
                total == meta.channel_count * meta.instrument_count,
                k <= total,
                tasks@ == full + Seq::new(
                    k as nat,
                    |j: int| per_channel_task(j, meta.channel_count as int, flags.stereo),
                ),
            decreases total - k,
        {
            proof {
                vstd::arithmetic::div_mod::lemma_fundamental_div_mod(k as int, cc as int);
                assert(k / cc < u32::MAX as u64 + 1) by {
                    vstd::arithmetic::div_mod::lemma_div_is_ordered(
                        k as int,
                        total as int,
                        cc as int,
                    );
                    vstd::arithmetic::div_mod::lemma_div_multiples_vanish(
                        meta.instrument_count as int,
                        cc as int,
                    );
                }
            }
            let t = task_for_index(k, meta.channel_count, flags.stereo);
            tasks.push(t);
            k = k + 1;
            proof {
                let s = Seq::new(
                    k as nat,
                    |j: int| per_channel_task(j, meta.channel_count as int, flags.stereo),
                );
                assert(tasks@ =~= full + s);
            }
        }
        proof {
            assert(tasks@ =~= task_matrix(*meta, flags));
        }
    } else if flags.render_per_instrument {
        let total: u32 = meta.instrument_count;
        let mut i: u32 = 0;
        while i < total
            invariant
                total == meta.instrument_count,
                i <= total,
                tasks@ == full + Seq::new(
                    i as nat,
                    |j: int| per_instrument_task(j, flags.stereo),
                ),
            decreases total - i,
        {
            tasks.push(RenderTask {
                channel: Selector::All,
                instrument: Selector::One(i),
                stereo: flags.stereo,
            });
            i = i + 1;
            proof {
                let s = Seq::new(i as nat, |j: int| per_instrument_task(j, flags.stereo));
                assert(tasks@ =~= full + s);
            }
        }
        proof {
            assert(tasks@ =~= task_matrix(*meta, flags));
        }
    } else {
        proof {
            assert(tasks@ =~= task_matrix(*meta, flags));
        }
    }
    tasks
}

/// The full mix, when requested, is always the first task and always renders
/// every channel and every instrument in stereo, regardless of the global
/// mono/stereo preference.
pub proof fn lemma_full_mix_always_stereo(meta: SongMetadata, flags: RenderFlags)
    requires
        flags.render_full,
    ensures
        task_matrix(meta, flags).len() >= 1,
        task_matrix(meta, flags)[0].channel == Selector::All,
        task_matrix(meta, flags)[0].instrument == Selector::All,
        task_matrix(meta, flags)[0].stereo == true,
{
}

/// With the per-channel grid enabled, the matrix holds one task per
/// (channel, instrument) pair, beyond the optional full mix.
pub proof fn lemma_grid_task_count(meta: SongMetadata, flags: RenderFlags)
    requires
        flags.render_per_channel,
    ensures
        task_matrix(meta, flags).len() == (if flags.render_full { 1int } else { 0int })
            + meta.channel_count * meta.instrument_count,
{
}

/// No two tasks of one matrix pick the same (channel, instrument) pair, so
/// each renders a distinct stem.
pub proof fn lemma_matrix_selectors_distinct(
    meta: SongMetadata,
    flags: RenderFlags,
    i: int,
    j: int,
)
    requires
        meta.is_valid_spec(),
        0 <= i < task_matrix(meta, flags).len(),
        0 <= j < task_matrix(meta, flags).len(),
        i != j,
    ensures
        task_matrix(meta, flags)[i].channel != task_matrix(meta, flags)[j].channel
            || task_matrix(meta, flags)[i].instrument != task_matrix(meta, flags)[j].instrument,
{
    let m = task_matrix(meta, flags);
    let cc = meta.channel_count as int;
    let full: int = if flags.render_full { 1 } else { 0 };
    if i >= full && j >= full && flags.render_per_channel {
        let ki = i - full;
        let kj = j - full;
        vstd::arithmetic::div_mod::lemma_fundamental_div_mod(ki, cc);
        vstd::arithmetic::div_mod::lemma_fundamental_div_mod(kj, cc);
        vstd::arithmetic::div_mod::lemma_mod_bound(ki, cc);
        vstd::arithmetic::div_mod::lemma_mod_bound(kj, cc);
        assert(ki / cc >= 0 && kj / cc >= 0) by {
            vstd::arithmetic::div_mod::lemma_div_is_ordered(0, ki, cc);
            vstd::arithmetic::div_mod::lemma_div_is_ordered(0, kj, cc);
        }
        assert(ki % cc < 0x1_0000_0000 && kj % cc < 0x1_0000_0000);
        assert(ki / cc < 0x1_0000_0000 && kj / cc < 0x1_0000_0000) by {
            vstd::arithmetic::div_mod::lemma_div_is_ordered(
                ki,
                cc * (meta.instrument_count as int),
                cc,
            );
            vstd::arithmetic::div_mod::lemma_div_is_ordered(
                kj,
                cc * (meta.instrument_count as int),
                cc,
            );
            vstd::arithmetic::div_mod::lemma_div_multiples_vanish(
                meta.instrument_count as int,
                cc,
            );
            vstd::arithmetic::mul::lemma_mul_is_commutative(
                cc,
                meta.instrument_count as int,
            );
        }
        if m[i].channel == m[j].channel && m[i].instrument == m[j].instrument {
            assert(ki % cc == kj % cc);
            assert(ki / cc == kj / cc);
            assert(ki == kj);
        }
    }
}

} // verus!
