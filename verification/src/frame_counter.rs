//! Frame timing: remembers when the last frame finished, how long it took,
//! and the mean duration over a sliding window of recent frames.

use vstd::prelude::*;

verus! {

/// Sum of a sequence of durations, as a mathematical integer.
pub open spec fn duration_sum(s: Seq<u64>) -> int
    decreases s.len(),
{
    if s.len() == 0 {
        0
    } else {
        duration_sum(s.drop_last()) + s.last()
    }
}

/// The sum of a window of durations is bounded by its length times the
/// largest possible duration.
pub proof fn lemma_duration_sum_bounds(s: Seq<u64>)
    ensures
        0 <= duration_sum(s) <= s.len() * u64::MAX,
    decreases s.len(),
{
    if s.len() > 0 {
        lemma_duration_sum_bounds(s.drop_last());
        assert((s.len() - 1) * u64::MAX + u64::MAX == s.len() * u64::MAX) by (nonlinear_arith);
    }
}

/// Counts frames as they complete, keeping the last frame's duration and
/// the mean duration over a window of the most recent frames (a ring buffer
/// of `avg_count` samples).
#[derive(Debug)]
pub struct FrameCounter {
    /// When the previous frame completed, if one has.
    pub last_frame_time: Option<u64>,
    /// How long the previous frame took, once two frames have completed.
    pub last_frame_duration: Option<u64>,
    /// Mean duration over the sample window, once one sample exists.
    pub avg_frame_duration: Option<u64>,
    /// The sliding window of recent frame durations.
    pub frame_duration: Vec<u64>,
    /// Where the next sample lands once the window is full.
    pub cursor: usize,
    /// Size of the sample window.
    pub avg_count: usize,
}

impl FrameCounter {
    /// The counter's internal consistency: a positive window size, the
    /// cursor inside it, and never more samples than the window holds.
    pub open spec fn wf(self) -> bool {
        &&& self.avg_count > 0
        &&& self.cursor < self.avg_count
        &&& self.frame_duration@.len() <= self.avg_count
    }

    /// Marks a frame as complete at time `now`. The first completion only
    /// anchors the clock; each later one records `now` minus the previous
    /// completion in the sliding window (appending until the window is
    /// full, then overwriting at the cursor) and updates both the last and
    /// the mean duration. The mean is the integer mean of the window.
    pub fn frame_done(&mut self, now: u64)
        requires
            old(self).wf(),
            old(self).last_frame_time matches Some(prev) ==> now >= prev,
        ensures
            final(self).wf(),
            final(self).last_frame_time == Some(now),
            final(self).avg_count == old(self).avg_count,
            ({
                match old(self).last_frame_time {
                    None => {
                        let w = old(self).frame_duration@;
                        &&& final(self).frame_duration == old(self).frame_duration
                        &&& final(self).cursor == old(self).cursor
                        &&& final(self).last_frame_duration == old(self).last_frame_duration
                        &&& final(self).avg_frame_duration == (if w.len() > 0 {
                            Some((duration_sum(w) / w.len() as int) as u64)
                        } else {
                            old(self).avg_frame_duration
                        })
                    },
                    Some(prev) => {
                        let d = (now - prev) as u64;
                        let w = if old(self).frame_duration@.len() < old(self).avg_count {
                            old(self).frame_duration@.push(d)
                        } else {
                            old(self).frame_duration@.update(old(self).cursor as int, d)
                        };
                        &&& final(self).frame_duration@ == w
                        &&& final(self).cursor == (old(self).cursor + 1) % (
                        old(self).avg_count as int)
                        &&& final(self).last_frame_duration == Some(d)
                        &&& final(self).avg_frame_duration == Some(
                            (duration_sum(w) / w.len() as int) as u64,
                        )
                    },
                }
            }),
    {
        if let Some(prev_frame_time) = self.last_frame_time {
            let frame_duration = now - prev_frame_time;
            if self.frame_duration.len() < self.avg_count {
                self.frame_duration.push(frame_duration);
            } else {
                self.frame_duration.set(self.cursor, frame_duration);
            }
            self.cursor = (self.cursor + 1) % self.avg_count;
            self.last_frame_duration = Some(frame_duration);
        }
        self.last_frame_time = Some(now);

        if self.frame_duration.len() > 0 {
            let mut total: u128 = 0;
            let mut i: usize = 0;
            let n = self.frame_duration.len();
            while i < n
                invariant
                    i <= n,
                    n == self.frame_duration@.len(),
                    total == duration_sum(self.frame_duration@.subrange(0, i as int)),
                    total <= i * (u64::MAX as int),
                decreases n - i,
            {
                proof {
                    assert(self.frame_duration@.subrange(0, i + 1 as int).drop_last()
                        =~= self.frame_duration@.subrange(0, i as int));
                    assert((i + 1) * (u64::MAX as int) == i * (u64::MAX as int) + u64::MAX)
                        by (nonlinear_arith);
                    vstd::arithmetic::mul::lemma_mul_inequality(
                        i + 1,
                        u64::MAX as int,
                        u64::MAX as int,
                    );
                    assert((u64::MAX as int) * (u64::MAX as int) + u64::MAX <= u128::MAX as int);
                }
                total = total + self.frame_duration[i] as u128;
                i += 1;
            }
            proof {
                assert(self.frame_duration@.subrange(0, n as int) =~= self.frame_duration@);
                assert(duration_sum(self.frame_duration@) / (n as int) <= u64::MAX as int) by {
                    lemma_duration_sum_bounds(self.frame_duration@);
                    assert(duration_sum(self.frame_duration@) <= (n as int) * (u64::MAX as int));
                    vstd::arithmetic::div_mod::lemma_div_is_ordered(
                        duration_sum(self.frame_duration@),
                        (n as int) * (u64::MAX as int),
                        n as int,
                    );
                    vstd::arithmetic::div_mod::lemma_div_multiples_vanish(
                        u64::MAX as int,
                        n as int,
                    );
                }
            }
            self.avg_frame_duration = Some((total / (n as u128)) as u64);
        }
    }

    /// How long the previous frame took, if two frames have completed.
    pub fn last_frame_duration(&self) -> (r: Option<u64>)
        ensures
            r == self.last_frame_duration,
    {
        self.last_frame_duration
    }

    /// The mean duration over the sample window, if a sample exists.
    pub fn avg_frame_duration(&self) -> (r: Option<u64>)
        ensures
            r == self.avg_frame_duration,
    {
        self.avg_frame_duration
    }
}

impl Default for FrameCounter {
    /// A fresh counter with a sixteen-sample window and nothing recorded.
    fn default() -> (r: Self)
        ensures
            r.wf(),
            r.avg_count == 16,
            r.cursor == 0,
            r.last_frame_time is None,
            r.last_frame_duration is None,
            r.avg_frame_duration is None,
            r.frame_duration@ == Seq::<u64>::empty(),
    {
        FrameCounter {
            last_frame_time: None,
            last_frame_duration: None,
            avg_frame_duration: None,
            frame_duration: Vec::new(),
            cursor: 0,
            avg_count: 16,
        }
    }
}

} // verus!
