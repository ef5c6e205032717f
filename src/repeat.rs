//! The repeat counters and the queries that are answered from them.

use vstd::prelude::*;

use crate::playback::{step, Step};

verus! {

/// The largest number of nanoseconds that a duration of the audio library can
/// hold: `u64::MAX` whole seconds and 999_999_999 nanoseconds.
pub const MAX_DURATION_NANOS: u128 = 18_446_744_073_709_551_615_999_999_999;

/// The progress of a source that is played a fixed number of times.
#[derive(Debug, Clone, Copy)]
pub struct RepeatCount {
    count: u32,
    count_remaining: u32,
}

/// A fresh repeat state: `count` passes owed, none started. A count of zero
/// plays nothing and reports a total duration of zero.
pub fn repeat_with_count(count: u32) -> (r: RepeatCount)
    ensures
        r.wf(),
        r.total() == count,
        r.left() == count,
{
    RepeatCount { count, count_remaining: count }
}

impl RepeatCount {
    /// The number of passes asked for at construction.
    pub closed spec fn total(&self) -> nat {
        self.count as nat
    }

    /// The passes still owed, the one in progress included.
    pub closed spec fn left(&self) -> nat {
        self.count_remaining as nat
    }

    /// Never more passes left than were asked for.
    pub closed spec fn wf(&self) -> bool {
        self.count_remaining <= self.count
    }

    /// Decides what to do with what the live cursor gave on a pull.
    pub fn advance<T>(&mut self, pulled: Option<T>) -> (r: Step<T>)
        requires
            old(self).wf(),
        ensures
            final(self).wf(),
            final(self).total() == old(self).total(),
            (final(self).left(), r) == step(old(self).left(), pulled),
    {
        if self.count_remaining == 0 {
            Step::Finish
        } else {
            match pulled {
                Some(v) => Step::Emit(v),
                None => {
                    if self.count_remaining > 1 {
                        self.count_remaining = self.count_remaining - 1;
                        Step::Rewind
                    } else {
                        Step::Finish
                    }
                },
            }
        }
    }
    /// The frame length to report: at a pass boundary (the live cursor's
    /// frame ends here) the pristine cursor's, which is that of the frame
    /// about to play; otherwise the live cursor's, `None` included.
    pub fn current_frame_len(&self, live: Option<usize>, template: Option<usize>) -> (r: Option<
        usize,
    >)
        ensures
            r == (if live == Some(0usize) {
                template
            } else {
                live
            }),
    {
        match live {
            Some(0) => template,
            a => a,
        }
    }

    /// The channel count to report, chosen by the live cursor's frame length
    /// as `current_frame_len` chooses. At the boundary that ends the last
    /// pass it is still the pristine cursor's.
    pub fn channels(&self, live_frame_len: Option<usize>, live: u16, template: u16) -> (r: u16)
        ensures
            r == (if live_frame_len == Some(0usize) {
                template
            } else {
                live
            }),
    {
        match live_frame_len {
            Some(0) => template,
            _ => live,
        }
    }

    /// The sample rate to report, chosen as `channels` chooses.
    pub fn sample_rate(&self, live_frame_len: Option<usize>, live: u32, template: u32) -> (r: u32)
        ensures
            r == (if live_frame_len == Some(0usize) {
                template
            } else {
                live
            }),
    {
        match live_frame_len {
            Some(0) => template,
            _ => live,
        }
    }

    /// The length of the whole playback in nanoseconds, from that of one
    /// pass: unknown when one pass's is, else one pass's times the number of
    /// passes asked for, however many are left.
    pub fn total_duration(&self, pass: Option<u128>) -> (r: Option<u128>)
        requires
            pass matches Some(d) ==> d <= MAX_DURATION_NANOS,
        ensures
            pass is None ==> r is None,
            pass matches Some(d) ==> r matches Some(t) && t == d * self.total(),
    {
        match pass {
            Some(d) => {
                assert(d * (self.count as u128) <= MAX_DURATION_NANOS * 0xffff_ffff) by (nonlinear_arith)
                    requires
                        d <= MAX_DURATION_NANOS,
                        self.count <= 0xffff_ffffu32,
                ;
                Some(d * (self.count as u128))
            },
            None => None,
        }
    }
}

} // verus!
