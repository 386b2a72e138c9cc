//! The velocity filter: which frames it uses, and which of them it keeps.
//!
//! A motor reports its position within one turn. The filter adds up the way
//! and the time from frame to frame and keeps the last few samples, through
//! which a line is fitted. A frame that repeats the time of the last one, or
//! comes after a long gap, starts the filter anew.
//!
//! Way and time are double-precision numbers, held by their bit patterns. The
//! times are not negative, so their patterns are ordered as they are.

use std::collections::VecDeque;

use vstd::prelude::*;

use crate::number::Real32;

verus! {

/// The longest time between two frames, in us. After a longer one the filter
/// starts anew.
pub const DISCONTINUITY_GAP_US: u32 = 500_000;

/// What a frame means for the filter.
#[derive(Debug, Clone, Copy, PartialEq)]
pub enum FilterStep {
    /// Start anew with this frame.
    Restart,
    /// The frame comes `dt_us` after one with position `last_raw_pos`.
    Extend { dt_us: u32, last_raw_pos: Real32 },
}

/// The sums with a frame added.
#[derive(Debug, Clone, Copy, PartialEq, Eq, Structural)]
pub struct FilterSums {
    /// The time since the filter started, in seconds (bit pattern).
    pub time_s: u64,
    /// The way since the filter started, in revolutions (bit pattern).
    pub pos: u64,
    /// Where the window begins, in seconds (bit pattern); `None` if that is
    /// before the filter started.
    pub cutoff: Option<u64>,
}

/// The filter of one motor.
#[derive(Debug)]
pub struct VelocityEstimator {
    /// The position in the last frame.
    pub last_raw_pos: Option<Real32>,
    /// The time in the last frame.
    pub last_ts_us: Option<u32>,
    /// The way so far.
    pub accum_pos: u64,
    /// The time so far.
    pub accum_time_s: u64,
    /// The samples, as time and way.
    pub samples: VecDeque<(u64, u64)>,
}

/// The state of a filter.
#[verifier::ext_equal]
pub struct Filter {
    pub last_raw_pos: Option<Real32>,
    pub last_ts_us: Option<u32>,
    pub accum_pos: u64,
    pub accum_time_s: u64,
    pub samples: Seq<(u64, u64)>,
}

impl View for VelocityEstimator {
    type V = Filter;

    open spec fn view(&self) -> Filter {
        Filter {
            last_raw_pos: self.last_raw_pos,
            last_ts_us: self.last_ts_us,
            accum_pos: self.accum_pos,
            accum_time_s: self.accum_time_s,
            samples: self.samples@,
        }
    }
}

/// The time from `earlier` to `later` on a clock of 32 bits that wraps around.
pub open spec fn clock_difference(later: u32, earlier: u32) -> u32 {
    ((later - earlier) % 0x1_0000_0000) as u32
}

/// The samples without those before the window; two are kept in any case.
pub open spec fn in_window(samples: Seq<(u64, u64)>, cutoff: Option<u64>) -> Seq<(u64, u64)>
    decreases samples.len(),
{
    if samples.len() > 2 && cutoff is Some && samples[0].0 < cutoff->0 {
        in_window(samples.skip(1), cutoff)
    } else {
        samples
    }
}

impl Filter {
    /// A filter that has seen no frame.
    pub open spec fn fresh() -> Filter {
        Filter {
            last_raw_pos: None,
            last_ts_us: None,
            accum_pos: 0,
            accum_time_s: 0,
            samples: seq![],
        }
    }

    /// What a frame with this time means.
    pub open spec fn step(self, ts_us: u32) -> FilterStep {
        if self.last_raw_pos is Some && self.last_ts_us is Some {
            let dt = clock_difference(ts_us, self.last_ts_us->0);
            if dt == 0 || dt > DISCONTINUITY_GAP_US {
                FilterStep::Restart
            } else {
                FilterStep::Extend { dt_us: dt, last_raw_pos: self.last_raw_pos->0 }
            }
        } else {
            FilterStep::Restart
        }
    }

    /// The filter after a frame. The sums count only where the frame extends
    /// the filter.
    pub open spec fn after(self, ts_us: u32, pos_rev: Real32, sums: FilterSums) -> Filter {
        match self.step(ts_us) {
            FilterStep::Restart => Filter {
                last_raw_pos: Some(pos_rev),
                last_ts_us: Some(ts_us),
                accum_pos: 0,
                accum_time_s: 0,
                samples: seq![(0u64, 0u64)],
            },
            FilterStep::Extend { .. } => Filter {
                last_raw_pos: Some(pos_rev),
                last_ts_us: Some(ts_us),
                accum_pos: sums.pos,
                accum_time_s: sums.time_s,
                samples: in_window(self.samples.push((sums.time_s, sums.pos)), sums.cutoff),
            },
        }
    }
}

impl Default for VelocityEstimator {
    fn default() -> (r: Self)
        ensures
            r@ == Filter::fresh(),
    {
        let r = VelocityEstimator {
            last_raw_pos: None,
            last_ts_us: None,
            accum_pos: 0,
            accum_time_s: 0,
            samples: VecDeque::new(),
        };
        assert(r@ =~= Filter::fresh());
        r
    }
}

impl VelocityEstimator {
    /// What a frame with this time means for the filter.
    pub fn step(&self, ts_us: u32) -> (r: FilterStep)
        ensures
            r == self@.step(ts_us),
    {
        match (self.last_raw_pos, self.last_ts_us) {
            (Some(last_raw_pos), Some(last_ts_us)) => {
                let dt_us: u32 = ts_us.wrapping_sub(last_ts_us);
                if dt_us == 0 || dt_us > DISCONTINUITY_GAP_US {
                    FilterStep::Restart
                } else {
                    FilterStep::Extend { dt_us, last_raw_pos }
                }
            },
            _ => FilterStep::Restart,
        }
    }

    /// Takes a frame. Returns whether it extended the filter; if not, the
    /// filter was started anew and there is no velocity yet.
    pub fn update(&mut self, ts_us: u32, pos_rev: Real32, sums: FilterSums) -> (r: bool)
        ensures
            final(self)@ == old(self)@.after(ts_us, pos_rev, sums),
            r == (old(self)@.step(ts_us) is Extend),
    {
        match self.step(ts_us) {
            FilterStep::Restart => {
                self.reset_to(ts_us, pos_rev);
                false
            },
            FilterStep::Extend { .. } => {
                self.accum_pos = sums.pos;
                self.accum_time_s = sums.time_s;
                self.last_raw_pos = Some(pos_rev);
                self.last_ts_us = Some(ts_us);
                self.samples.push_back((sums.time_s, sums.pos));
                if let Some(cutoff) = sums.cutoff {
                    self.drop_before(cutoff);
                }
                true
            },
        }
    }

    fn drop_before(&mut self, cutoff: u64)
        ensures
            final(self)@ == (Filter {
                samples: in_window(old(self)@.samples, Some(cutoff)),
                ..old(self)@
            }),
    {
        let ghost before = self@;
        while self.samples.len() > 2 && self.samples[0].0 < cutoff
            invariant
                in_window(self@.samples, Some(cutoff)) == in_window(before.samples, Some(cutoff)),
                self@ == (Filter { samples: self@.samples, ..before }),
            decreases self@.samples.len(),
        {
            let ghost now = self.samples@;
            let _ = self.samples.pop_front();
            assert(self.samples@ =~= now.skip(1));
        }
    }

    /// Starts anew with a frame.
    fn reset_to(&mut self, ts_us: u32, pos_rev: Real32)
        ensures
            final(self)@ == (Filter {
                last_raw_pos: Some(pos_rev),
                last_ts_us: Some(ts_us),
                accum_pos: 0,
                accum_time_s: 0,
                samples: seq![(0u64, 0u64)],
            }),
    {
        self.last_raw_pos = Some(pos_rev);
        self.last_ts_us = Some(ts_us);
        self.accum_pos = 0;
        self.accum_time_s = 0;
        self.samples.clear();
        self.samples.push_back((0, 0));
        assert(self.samples@ =~= seq![(0u64, 0u64)]);
    }
}

/// The window keeps a tail of the samples; what is dropped lies before the
/// window, and what is kept lies in it, except that two are kept in any case.
pub proof fn window_keeps_the_newest(samples: Seq<(u64, u64)>, cutoff: Option<u64>)
    ensures
        ({
            let kept = in_window(samples, cutoff);
            let dropped = samples.len() - kept.len();
            &&& 0 <= dropped
            &&& kept == samples.skip(dropped)
            &&& samples.len() >= 2 ==> kept.len() >= 2
            &&& samples.len() < 2 ==> kept == samples
            &&& forall|i: int|
                0 <= i < dropped ==> cutoff is Some && (#[trigger] samples[i]).0 < cutoff->0
            &&& kept.len() > 2 && cutoff is Some ==> kept[0].0 >= cutoff->0
        }),
    decreases samples.len(),
{
    assert(samples.skip(0) =~= samples);
    if samples.len() > 2 && cutoff is Some && samples[0].0 < cutoff->0 {
        let rest = samples.skip(1);
        window_keeps_the_newest(rest, cutoff);
        let kept = in_window(samples, cutoff);
        let dropped = samples.len() - kept.len();
        assert(kept =~= samples.skip(dropped));
        assert forall|i: int| 0 <= i < dropped implies cutoff is Some && (
        #[trigger] samples[i]).0 < cutoff->0 by {
            if i > 0 {
                assert(rest[i - 1] == samples[i]);
            }
        }
    }
}

/// The clock may wrap around: a frame `dt` after the last is seen as such.
pub proof fn wrapping_clock_is_handled(filter: Filter, dt: u32)
    requires
        filter.last_raw_pos is Some,
        filter.last_ts_us is Some,
        1 <= dt <= DISCONTINUITY_GAP_US,
    ensures
        ({
            let ts = ((filter.last_ts_us->0 + dt) % 0x1_0000_0000) as u32;
            filter.step(ts) == (FilterStep::Extend {
                dt_us: dt,
                last_raw_pos: filter.last_raw_pos->0,
            })
        }),
{
}

/// A frame extends the filter exactly when there was one before it and its time
/// is more than 0 and at most half a second later on the 32-bit clock; it then
/// carries that time and the position before. All other frames start anew.
pub proof fn gap_decides(filter: Filter, ts_us: u32)
    ensures
        match filter.step(ts_us) {
            FilterStep::Extend { dt_us, last_raw_pos } => {
                &&& filter.last_raw_pos == Some(last_raw_pos)
                &&& filter.last_ts_us matches Some(last) && (last + dt_us) % 0x1_0000_0000 == ts_us
                &&& 0 < dt_us <= 500_000
            },
            FilterStep::Restart => filter.last_raw_pos is None || filter.last_ts_us is None
                || forall|dt: int|
                0 < dt <= 500_000 ==> #[trigger] ((filter.last_ts_us->0 + dt) % 0x1_0000_0000)
                    != ts_us,
        },
{
}

/// The filter after a frame: it remembers the time and position of the frame.
/// One that starts anew has a single sample at zero. One that is extended has
/// the given sums, the new sample last, and of the older samples only such as
/// it had; with no cutoff it drops none.
pub proof fn filter_follows_the_frames(filter: Filter, ts_us: u32, pos: Real32, sums: FilterSums)
    ensures
        ({
            let after = filter.after(ts_us, pos, sums);
            &&& after.last_raw_pos == Some(pos)
            &&& after.last_ts_us == Some(ts_us)
            &&& filter.step(ts_us) is Restart ==> {
                &&& after.samples.len() == 1
                &&& after.samples[0] == (0u64, 0u64)
                &&& after.accum_pos == 0
                &&& after.accum_time_s == 0
            }
            &&& filter.step(ts_us) is Extend ==> {
                let dropped = filter.samples.len() + 1 - after.samples.len();
                &&& after.accum_pos == sums.pos
                &&& after.accum_time_s == sums.time_s
                &&& after.samples.len() >= 1
                &&& after.samples.last() == (sums.time_s, sums.pos)
                &&& dropped >= 0
                &&& after.samples.drop_last() == filter.samples.skip(dropped)
                &&& sums.cutoff is None ==> dropped == 0
                &&& forall|i: int|
                    0 <= i < dropped ==> sums.cutoff is Some && (#[trigger] filter.samples[i]).0
                        < sums.cutoff->0
                &&& after.samples.len() > 2 && sums.cutoff is Some ==> after.samples[0].0
                    >= sums.cutoff->0
                &&& filter.samples.len() >= 1 ==> after.samples.len() >= 2
            }
        }),
{
    let after = filter.after(ts_us, pos, sums);
    let all = filter.samples.push((sums.time_s, sums.pos));
    window_keeps_the_newest(all, sums.cutoff);
    if filter.step(ts_us) is Extend {
        let dropped = all.len() - after.samples.len();
        assert(after.samples.drop_last() =~= filter.samples.skip(dropped));
        assert forall|i: int| 0 <= i < dropped implies sums.cutoff is Some && (
        #[trigger] filter.samples[i]).0 < sums.cutoff->0 by {
            assert(all[i] == filter.samples[i]);
        }
    }
}

/// A filter that has seen no frame has nothing, and its first frame starts it.
pub proof fn fresh_filter_is_empty(ts_us: u32)
    ensures
        Filter::fresh().samples.len() == 0,
        Filter::fresh().last_raw_pos is None,
        Filter::fresh().last_ts_us is None,
        Filter::fresh().accum_pos == 0,
        Filter::fresh().accum_time_s == 0,
        Filter::fresh().step(ts_us) is Restart,
{
}

/// The state of a filter is what it holds, field by field.
pub proof fn filter_is_as_it_is_kept(f: VelocityEstimator)
    ensures
        f@.last_raw_pos == f.last_raw_pos,
        f@.last_ts_us == f.last_ts_us,
        f@.accum_pos == f.accum_pos,
        f@.accum_time_s == f.accum_time_s,
        f@.samples == f.samples@,
{
}

} // verus!
