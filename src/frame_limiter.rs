use vstd::arithmetic::div_mod::lemma_fundamental_div_mod;
use vstd::prelude::*;

verus! {

pub const NANOS_PER_SECOND: u64 = 1_000_000_000;

/// The frame duration for a target rate, in nanoseconds: the least whole
/// number of nanoseconds that lasts at least `1/fps` seconds. A rate of 0
/// is taken as 1 frame per second.
pub open spec fn frame_nanos_for(fps: u32) -> int {
    let f: int = if fps == 0 { 1 } else { fps as int };
    (NANOS_PER_SECOND + f - 1) / f
}

/// Time from `start` to `now`; a clock that went backwards counts as no time.
pub open spec fn elapsed(start: u64, now: u64) -> int {
    if now >= start { now - start } else { 0 }
}

/// What a frame limiter holds: the frame duration and the start of the
/// current frame, if one was started.
pub struct FrameLimiterView {
    pub frame_nanos: int,
    pub frame_start: Option<u64>,
}

/// Whether the current frame still has time left at `now`.
pub open spec fn budget_left(v: FrameLimiterView, now: u64) -> bool {
    match v.frame_start {
        Some(s) => elapsed(s, now) < v.frame_nanos,
        None => false,
    }
}

/// The time since the previous frame start, or 0 before the first frame.
pub open spec fn delta_since(v: FrameLimiterView, now: u64) -> int {
    match v.frame_start {
        Some(s) => elapsed(s, now),
        None => 0,
    }
}

/// Paces a loop to a target number of frames per second. Timestamps are
/// nanoseconds of a monotonic clock, handed in by the caller.
pub struct FrameLimiter {
    frame_nanos: u64,
    frame_start: Option<u64>,
}

impl View for FrameLimiter {
    type V = FrameLimiterView;

    closed spec fn view(&self) -> FrameLimiterView {
        FrameLimiterView { frame_nanos: self.frame_nanos as int, frame_start: self.frame_start }
    }
}

impl FrameLimiter {
    /// A limiter for `fps` frames per second, with no frame started yet.
    pub fn new(fps: u32) -> (r: FrameLimiter)
        ensures
            r@.frame_nanos == frame_nanos_for(fps),
            r@.frame_start is None,
    {
        let f: u64 = if fps == 0 { 1 } else { fps as u64 };
        FrameLimiter { frame_nanos: (NANOS_PER_SECOND + f - 1) / f, frame_start: None }
    }

    /// The frame duration in nanoseconds.
    pub fn frame_nanos(&self) -> (r: u64)
        ensures
            r == self@.frame_nanos,
    {
        self.frame_nanos
    }

    /// Starts a frame at `now` and returns the time since the previous start
    /// (0 for the first frame).
    pub fn start(&mut self, now: u64) -> (dt: u64)
        ensures
            dt == delta_since(old(self)@, now),
            final(self)@ == (FrameLimiterView { frame_start: Some(now), ..old(self)@ }),
    {
        let dt: u64 = match self.frame_start {
            Some(s) => if now >= s { now - s } else { 0 },
            None => 0,
        };
        self.frame_start = Some(now);
        dt
    }

    /// True while the frame started last still has time left at `now`;
    /// false once its duration has elapsed, or when no frame was started.
    pub fn stop(&self, now: u64) -> (r: bool)
        ensures
            r == budget_left(self@, now),
    {
        match self.frame_start {
            Some(s) => {
                let e: u64 = if now >= s { now - s } else { 0 };
                e < self.frame_nanos
            },
            None => false,
        }
    }
}

/// The frame duration is at least one nanosecond and at most one second, and
/// for a positive rate it lasts at least `1/fps` seconds.
pub proof fn lemma_frame_nanos_bounds(fps: u32)
    ensures
        1 <= frame_nanos_for(fps) <= NANOS_PER_SECOND,
        fps > 0 ==> frame_nanos_for(fps) * fps >= NANOS_PER_SECOND,
{
    let f: int = if fps == 0 { 1 } else { fps as int };
    let n: int = NANOS_PER_SECOND as int;
    let q: int = (n + f - 1) / f;
    lemma_fundamental_div_mod(n + f - 1, f);
    let r: int = (n + f - 1) % f;
    assert(0 <= r < f);
    assert(q * f == n + f - 1 - r);
    assert(q * f >= n);
    assert(q >= 1) by (nonlinear_arith)
        requires
            q * f >= n,
            n > 0,
            f >= 1,
    ;
    assert(q <= n) by (nonlinear_arith)
        requires
            q * f <= n + f - 1,
            f >= 1,
            n > 0,
    ;
}

/// Once a frame's budget is spent, at least `1/fps` seconds have passed since
/// its start.
pub proof fn lemma_stop_after_frame_time(fps: u32, v: FrameLimiterView, now: u64)
    requires
        fps > 0,
        v.frame_nanos == frame_nanos_for(fps),
        v.frame_start is Some,
        !budget_left(v, now),
    ensures
        elapsed(v.frame_start->0, now) * fps >= NANOS_PER_SECOND,
{
    lemma_frame_nanos_bounds(fps);
    let e = elapsed(v.frame_start->0, now);
    let q = frame_nanos_for(fps);
    assert(e * fps >= q * fps) by (nonlinear_arith)
        requires
            e >= q,
            fps >= 0,
    ;
}

/// Whatever the rate, 0 included, a frame's budget is spent one second after
/// its start: the idle wait always ends.
pub proof fn lemma_stop_within_a_second(fps: u32, v: FrameLimiterView, now: u64)
    requires
        v.frame_nanos == frame_nanos_for(fps),
        v.frame_start is Some,
        now >= v.frame_start->0 + NANOS_PER_SECOND,
    ensures
        !budget_left(v, now),
{
    lemma_frame_nanos_bounds(fps);
}

} // verus!
