//! Per-frame timing statistics: pure render time, capped frame time
//! including the buffer-swap wait, and a rolling one-second
//! frames-per-second counter. Mutated only by the frame orchestrator;
//! external callers read a copy. All times are in milliseconds.
use vstd::prelude::*;

verus! {

pub const MILLIS_PER_SECOND: u64 = 1000;

/// Timing of the frames rendered so far. The last three fields are the
/// rolling-window state the orchestrator maintains; callers should read the
/// first three.
#[derive(Clone, Copy, PartialEq, Eq, Structural, Debug)]
pub struct Statistics {
    /// Real time consumed to render the last frame.
    pub pure_frame_time: u64,
    /// Total time the renderer took to process the last frame, including
    /// the wait for the buffer swap.
    pub capped_frame_time: u64,
    /// Frames rendered in the most recent full one-second window.
    pub frames_per_second: usize,
    /// Frames completed in the window currently being counted.
    pub frame_counter: usize,
    /// When the frame being rendered started.
    pub frame_start_time: u64,
    /// When the current one-second window started.
    pub last_fps_commit_time: u64,
}

impl Statistics {
    pub open spec fn spec_default() -> Statistics {
        Statistics {
            pure_frame_time: 0,
            capped_frame_time: 0,
            frames_per_second: 0,
            frame_counter: 0,
            frame_start_time: 0,
            last_fps_commit_time: 0,
        }
    }
}

impl Default for Statistics {
    fn default() -> (s: Statistics)
        ensures
            s == Statistics::spec_default(),
    {
        Statistics {
            pure_frame_time: 0,
            capped_frame_time: 0,
            frames_per_second: 0,
            frame_counter: 0,
            frame_start_time: 0,
            last_fps_commit_time: 0,
        }
    }
}

/// Marking the start of a frame only records the timestamp.
pub open spec fn spec_begin_frame(s: Statistics, now_ms: u64) -> Statistics {
    Statistics { frame_start_time: now_ms, ..s }
}

/// Ending a frame records its pure render time and counts it; when a full
/// second has passed since the last commit, the counted frames become the
/// new frames-per-second value and the window restarts at this instant.
pub open spec fn spec_end_frame(s: Statistics, now_ms: u64) -> Statistics {
    let counted = Statistics {
        pure_frame_time: (now_ms - s.frame_start_time) as u64,
        frame_counter: (s.frame_counter + 1) as usize,
        ..s
    };
    if now_ms - s.last_fps_commit_time >= MILLIS_PER_SECOND {
        Statistics {
            frames_per_second: counted.frame_counter,
            frame_counter: 0,
            last_fps_commit_time: now_ms,
            ..counted
        }
    } else {
        counted
    }
}

/// Finalizing after the buffer swap records the capped frame time.
pub open spec fn spec_finalize(s: Statistics, now_ms: u64) -> Statistics {
    Statistics { capped_frame_time: (now_ms - s.frame_start_time) as u64, ..s }
}

impl Statistics {
    /// Must be called before rendering anything.
    pub(crate) fn begin_frame(&mut self, now_ms: u64)
        ensures
            *final(self) == spec_begin_frame(*old(self), now_ms),
    {
        self.frame_start_time = now_ms;
    }

    /// Must be called after all rendering is done, before the buffer swap.
    pub(crate) fn end_frame(&mut self, now_ms: u64)
        requires
            now_ms >= old(self).frame_start_time,
            now_ms >= old(self).last_fps_commit_time,
            old(self).frame_counter < usize::MAX,
        ensures
            *final(self) == spec_end_frame(*old(self), now_ms),
    {
        self.pure_frame_time = now_ms - self.frame_start_time;
        self.frame_counter = self.frame_counter + 1;
        if now_ms - self.last_fps_commit_time >= MILLIS_PER_SECOND {
            self.frames_per_second = self.frame_counter;
            self.frame_counter = 0;
            self.last_fps_commit_time = now_ms;
        }
    }

    /// Must be called after the buffer swap, to capture the capped frame
    /// time including the swap wait.
    pub(crate) fn finalize(&mut self, now_ms: u64)
        requires
            now_ms >= old(self).frame_start_time,
        ensures
            *final(self) == spec_finalize(*old(self), now_ms),
    {
        self.capped_frame_time = now_ms - self.frame_start_time;
    }
}

/// A frame ending a full one-second window commits exactly the frames
/// counted in that window (this frame included) as the new
/// frames-per-second value, and the window counter resets.
pub proof fn lemma_fps_window_commit(s: Statistics, now_ms: u64)
    requires
        now_ms >= s.last_fps_commit_time + MILLIS_PER_SECOND,
        s.frame_counter < usize::MAX,
    ensures
        spec_end_frame(s, now_ms).frames_per_second == s.frame_counter + 1,
        spec_end_frame(s, now_ms).frame_counter == 0,
        spec_end_frame(s, now_ms).last_fps_commit_time == now_ms,
{
}

/// A frame inside the current window only counts: the committed
/// frames-per-second value is untouched.
pub proof fn lemma_fps_within_window(s: Statistics, now_ms: u64)
    requires
        now_ms >= s.last_fps_commit_time,
        now_ms < s.last_fps_commit_time + MILLIS_PER_SECOND,
        s.frame_counter < usize::MAX,
    ensures
        spec_end_frame(s, now_ms).frames_per_second == s.frames_per_second,
        spec_end_frame(s, now_ms).frame_counter == s.frame_counter + 1,
        spec_end_frame(s, now_ms).last_fps_commit_time == s.last_fps_commit_time,
{
}

/// The statistics after a run of frame ends at the given instants.
pub open spec fn spec_run_end_frames(s: Statistics, times: Seq<u64>) -> Statistics
    decreases times.len(),
{
    if times.len() == 0 {
        s
    } else {
        spec_end_frame(spec_run_end_frames(s, times.drop_last()), times.last())
    }
}

/// Frames spaced at least one second apart each close their own window:
/// after any such run the frames-per-second value equals the count of
/// frames completed in the most recent full one-second window — exactly
/// one — and the window has rolled over (counter reset, window anchored at
/// the last frame).
pub proof fn lemma_fps_spaced_frames(s: Statistics, times: Seq<u64>)
    requires
        s.frame_counter == 0,
        times.len() > 0 ==> times[0] >= s.last_fps_commit_time + MILLIS_PER_SECOND,
        forall|k: int| 1 <= k < times.len() ==> #[trigger] times[k] >= times[k - 1]
            + MILLIS_PER_SECOND,
    ensures
        times.len() > 0 ==> spec_run_end_frames(s, times).frames_per_second == 1,
        spec_run_end_frames(s, times).frame_counter == 0,
        spec_run_end_frames(s, times).last_fps_commit_time == (if times.len() > 0 {
            times.last()
        } else {
            s.last_fps_commit_time
        }),
    decreases times.len(),
{
    if times.len() > 0 {
        let prefix = times.drop_last();
        assert(forall|k: int| 0 <= k < prefix.len() ==> prefix[k] == times[k]);
        lemma_fps_spaced_frames(s, prefix);
        let run = spec_run_end_frames(s, prefix);
        assert(times.last() >= run.last_fps_commit_time + MILLIS_PER_SECOND);
    }
}

} // verus!
