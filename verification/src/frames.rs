//! Counting frames, and sampling the frame rate about once a second.

use vstd::prelude::*;
use crate::time::{elapsed_between, elapsed_ns};

verus! {

/// The length of the window over which frames are counted, in nanoseconds
/// (one second).
pub const FPS_WINDOW_NS: u128 = 1_000_000_000;

/// What a frame does to a count of `frames` frames: the new count and, when
/// the window is closed, the number of frames in it.
pub open spec fn next_count(frames: u32, window_closed: bool) -> (u32, Option<u32>) {
    if window_closed {
        (0, Some((frames + 1) as u32))
    } else {
        ((frames + 1) as u32, None)
    }
}

/// The frames drawn since the frame rate was last sampled.
pub struct FrameCounter {
    pub frames: u32,
}

impl FrameCounter {
    pub fn new() -> (c: FrameCounter)
        ensures
            c.frames == 0,
    {
        FrameCounter { frames: 0 }
    }

    /// Counts one frame. When the sampling window is closed, the count,
    /// this frame included, is handed out and starts again at zero.
    pub fn record_frame(&mut self, window_closed: bool) -> (sample: Option<u32>)
        requires
            old(self).frames < u32::MAX,
        ensures
            (final(self).frames, sample) == next_count(old(self).frames, window_closed),
    {
        let frames = self.frames + 1;
        if window_closed {
            self.frames = 0;
            Some(frames)
        } else {
            self.frames = frames;
            None
        }
    }
}

/// No frame is lost or counted twice: the frames handed out by a frame and
/// those still counted after it are those counted before it, and one more.
pub proof fn lemma_frames_conserved(frames: u32, window_closed: bool)
    requires
        frames < u32::MAX,
    ensures
        ({
            let (after, sample) = next_count(frames, window_closed);
            &&& after + match sample { Some(n) => n as int, None => 0int } == frames + 1
            &&& (sample is Some <==> window_closed)
            &&& (window_closed ==> after == 0)
        }),
{
}

/// A frame rate sample: `frames` frames were drawn in `window_ns`
/// nanoseconds.
#[derive(PartialEq, Eq, Structural, Clone, Copy, Debug)]
pub struct FpsSample {
    pub frames: u32,
    pub window_ns: u128,
}

/// What the clock reports for one frame: the time since the clock was
/// started, and a frame rate sample when one is due.
#[derive(PartialEq, Eq, Structural, Clone, Copy, Debug)]
pub struct FrameTiming {
    pub since_start_ns: u128,
    pub fps: Option<FpsSample>,
}

/// What a frame clock holds: the reading it started at, the reading the
/// open window opened at, and the frames counted in that window.
pub struct FrameClockView {
    pub start_ns: u128,
    pub window_ns: u128,
    pub frames: u32,
}

/// A frame clock started at the reading `now`: the first window opens then.
pub open spec fn clock_started(now: u128) -> FrameClockView {
    FrameClockView { start_ns: now, window_ns: now, frames: 0 }
}

/// Whether a frame drawn at `now` closes the open window: at least a second
/// has passed since it opened.
pub open spec fn window_closes(c: FrameClockView, now: u128) -> bool {
    elapsed_ns(c.window_ns, now) >= FPS_WINDOW_NS
}

/// The clock after a frame drawn at `now`: the frame is counted; when the
/// window closes, the count starts again and a new window opens at `now`.
/// The start never moves.
pub open spec fn ticked(c: FrameClockView, now: u128) -> FrameClockView {
    let (frames, _) = next_count(c.frames, window_closes(c, now));
    FrameClockView {
        start_ns: c.start_ns,
        window_ns: if window_closes(c, now) { now } else { c.window_ns },
        frames,
    }
}

/// What the clock reports for a frame drawn at `now`: the time since it
/// started and, when the window closes, the frames in it (this one
/// included) and the window's length.
pub open spec fn timing_at(c: FrameClockView, now: u128) -> FrameTiming {
    FrameTiming {
        since_start_ns: elapsed_ns(c.start_ns, now),
        fps: if window_closes(c, now) {
            Some(FpsSample { frames: (c.frames + 1) as u32, window_ns: elapsed_ns(c.window_ns, now) })
        } else {
            None
        },
    }
}

/// The clock behind the animation time and the frame rate.
pub struct FrameClock {
    start_ns: u128,
    window_ns: u128,
    counter: FrameCounter,
}

impl View for FrameClock {
    type V = FrameClockView;

    closed spec fn view(&self) -> FrameClockView {
        FrameClockView { start_ns: self.start_ns, window_ns: self.window_ns, frames: self.counter.frames }
    }
}

impl FrameClock {
    /// Starts the clock at the reading `now_ns`, with no frame counted; the
    /// first window opens at the same reading.
    pub fn new(now_ns: u128) -> (c: FrameClock)
        ensures
            c@ == clock_started(now_ns),
    {
        FrameClock { start_ns: now_ns, window_ns: now_ns, counter: FrameCounter::new() }
    }

    /// The frames counted in the open window.
    pub fn frames_in_window(&self) -> (n: u32)
        ensures
            n == self@.frames,
    {
        self.counter.frames
    }

    /// Counts a frame drawn at the reading `now_ns`. Once at least
    /// `FPS_WINDOW_NS` have passed since the window opened, the frames in it
    /// are sampled and a new window opens at `now_ns`.
    pub fn tick(&mut self, now_ns: u128) -> (t: FrameTiming)
        requires
            old(self)@.frames < u32::MAX,
        ensures
            final(self)@ == ticked(old(self)@, now_ns),
            t == timing_at(old(self)@, now_ns),
    {
        let since_start_ns = elapsed_between(self.start_ns, now_ns);
        let window_ns = elapsed_between(self.window_ns, now_ns);
        let window_closed = window_ns >= FPS_WINDOW_NS;
        let sample = self.counter.record_frame(window_closed);
        match sample {
            Some(frames) => {
                self.window_ns = now_ns;
                FrameTiming { since_start_ns, fps: Some(FpsSample { frames, window_ns }) }
            },
            None => FrameTiming { since_start_ns, fps: None },
        }
    }
}

/// The clock after frames drawn at the readings `nows`, in order.
pub open spec fn ticks(c: FrameClockView, nows: Seq<u128>) -> FrameClockView
    decreases nows.len(),
{
    if nows.len() == 0 {
        c
    } else {
        ticks(ticked(c, nows[0]), nows.drop_first())
    }
}

/// The animation time is measured from one fixed start: no frame moves it,
/// so a later frame never reports an earlier time.
pub proof fn lemma_start_is_fixed(c: FrameClockView, nows: Seq<u128>, t1: u128, t2: u128)
    requires
        t1 <= t2,
    ensures
        ticks(c, nows).start_ns == c.start_ns,
        timing_at(c, t1).since_start_ns <= timing_at(ticked(c, t1), t2).since_start_ns,
    decreases nows.len(),
{
    if nows.len() > 0 {
        lemma_start_is_fixed(ticked(c, nows[0]), nows.drop_first(), t1, t2);
    }
}

/// While no frame closes the window, every frame is counted and the window
/// keeps its opening reading; a frame that closes it hands out the count,
/// starts the count again and reopens the window at that frame. So the count
/// is the number of frames since the window last opened.
pub proof fn lemma_count_since_window_opened(c: FrameClockView, nows: Seq<u128>, now: u128)
    requires
        c.frames + nows.len() <= u32::MAX,
        forall|i: int| 0 <= i < nows.len() ==> elapsed_ns(c.window_ns, #[trigger] nows[i]) < FPS_WINDOW_NS,
    ensures
        ticks(c, nows) == (FrameClockView { start_ns: c.start_ns, window_ns: c.window_ns, frames: (c.frames + nows.len()) as u32 }),
        window_closes(c, now) ==> ticked(c, now).frames == 0 && ticked(c, now).window_ns == now,
        !window_closes(c, now) ==> elapsed_ns(ticked(c, now).window_ns, now) < FPS_WINDOW_NS,
    decreases nows.len(),
{
    if nows.len() > 0 {
        let c1 = ticked(c, nows[0]);
        assert(!window_closes(c, nows[0]));
        assert forall|i: int| 0 <= i < nows.drop_first().len() implies elapsed_ns(c1.window_ns, #[trigger] nows.drop_first()[i]) < FPS_WINDOW_NS by {
            assert(nows.drop_first()[i] == nows[i + 1]);
        }
        lemma_count_since_window_opened(c1, nows.drop_first(), now);
    }
}

/// What one frame drawn at `now` does, said in readings: the time since the
/// start is `now` minus the start, in full; a sample is taken exactly when at
/// least a second has passed since the window opened, and then holds every
/// frame counted plus this one and the full time since the window opened,
/// the count restarts and the window reopens at `now`; otherwise the frame is
/// counted and the window keeps its opening. The start never moves.
pub proof fn lemma_tick_in_readings(c: FrameClockView, now: u128)
    requires
        c.frames < u32::MAX,
    ensures
        now >= c.start_ns ==> timing_at(c, now).since_start_ns + c.start_ns == now,
        now < c.start_ns ==> timing_at(c, now).since_start_ns == 0,
        ticked(c, now).start_ns == c.start_ns,
        now >= c.window_ns && now - c.window_ns >= 1_000_000_000 ==> {
            &&& timing_at(c, now).fps == Some(FpsSample { frames: (c.frames + 1) as u32, window_ns: (now - c.window_ns) as u128 })
            &&& ticked(c, now).frames == 0
            &&& ticked(c, now).window_ns == now
        },
        !(now >= c.window_ns && now - c.window_ns >= 1_000_000_000) ==> {
            &&& timing_at(c, now).fps is None
            &&& ticked(c, now).frames == c.frames + 1
            &&& ticked(c, now).window_ns == c.window_ns
        },
{
}

/// A clock started at `now` has counted nothing, and its start and its first
/// window are both `now`.
pub proof fn lemma_clock_starts_empty(now: u128)
    ensures
        clock_started(now).frames == 0,
        clock_started(now).start_ns == now,
        clock_started(now).window_ns == now,
{
}

} // verus!
