//! The eye drawn on each paddle: when it blinks, and when it glances at the
//! score board instead of following the ball.
use vstd::prelude::*;

verus! {

/// Longest wait, in frames, before the eye glances at the score board (exclusive).
pub const MAX_LOOK_SCORE_COUNTDOWN: i32 = 600;

/// Shortest wait, in frames, before the eye glances at the score board.
pub const MIN_LOOK_SCORE_COUNTDOWN: i32 = 300;

/// How many frames a glance at the score board lasts.
pub const LOOK_SCORE_FRAMES: i32 = 25;

/// Longest wait, in frames, before the eye blinks (exclusive).
pub const MAX_BLINK_COUNTDOWN: i32 = 360;

/// Shortest wait, in frames, before the eye blinks.
pub const MIN_BLINK_COUNTDOWN: i32 = 180;

/// How many frames a blink lasts.
pub const BLINK_FRAMES: i32 = 5;

/// Relies on rand's `Rng::gen_range` over `low..high` on the thread-local
/// generator: a value drawn from the half-open range, which must not be empty.
#[verifier::external_body]
fn random_in_range(low: i32, high: i32) -> (r: i32)
    requires
        low < high,
    ensures
        low <= r < high,
{
    rand::Rng::gen_range(&mut rand::thread_rng(), low..high)
}

/// One frame of a two-phase cycle: a countdown that, on reaching zero,
/// starts a timer; a timer that, on reaching zero, restarts the countdown at
/// `draw`. A phase that is not running holds -1.
///
/// Returns the new countdown and timer, and whether either phase ended on
/// this frame.
pub open spec fn cycle_step(countdown: i32, timer: i32, duration: i32, draw: i32) -> (i32, i32, bool) {
    let (c1, t1, ended1) = if countdown > 0 {
        ((countdown - 1) as i32, timer, false)
    } else if countdown == 0 {
        (-1i32, duration, true)
    } else {
        (countdown, timer, false)
    };
    if t1 > 0 {
        (c1, (t1 - 1) as i32, ended1)
    } else if t1 == 0 {
        (draw, -1i32, true)
    } else {
        (c1, t1, ended1)
    }
}

/// Executable form of [`cycle_step`].
pub fn step_cycle(countdown: i32, timer: i32, duration: i32, draw: i32) -> (r: (i32, i32, bool))
    ensures
        r == cycle_step(countdown, timer, duration, draw),
{
    let mut c = countdown;
    let mut t = timer;
    let mut ended = false;
    if c > 0 {
        c = c - 1;
    } else if c == 0 {
        t = duration;
        c = -1;
        ended = true;
    }
    if t > 0 {
        t = t - 1;
    } else if t == 0 {
        c = draw;
        t = -1;
        ended = true;
    }
    (c, t, ended)
}

/// The blink and glance timers of one eye.
///
/// Each of the two activities alternates between a countdown (frames left
/// before it starts) and a timer (frames left while it lasts); the phase
/// that is not running holds -1.
#[derive(Clone, Copy, Debug, PartialEq, Eq)]
pub struct EyeTimers {
    pub look_score_timer: i32,
    pub max_look_score_timer: i32,
    pub look_score_countdown: i32,
    pub max_look_score_countdown: i32,
    pub min_look_score_countdown: i32,
    pub following_target: bool,
    pub blink_timer: i32,
    pub max_blink_timer: i32,
    pub blink_countdown: i32,
    pub max_blink_countdown: i32,
    pub min_blink_countdown: i32,
}

impl EyeTimers {
    /// The ranges that new countdowns are drawn from are not empty, and
    /// every phase lies between -1 and its longest length.
    pub open spec fn wf(&self) -> bool {
        &&& 0 <= self.min_look_score_countdown < self.max_look_score_countdown
        &&& 0 <= self.min_blink_countdown < self.max_blink_countdown
        &&& 0 <= self.max_look_score_timer
        &&& 0 <= self.max_blink_timer
        &&& -1 <= self.look_score_countdown < self.max_look_score_countdown
        &&& -1 <= self.look_score_timer <= self.max_look_score_timer
        &&& -1 <= self.blink_countdown < self.max_blink_countdown
        &&& -1 <= self.blink_timer <= self.max_blink_timer
    }

    /// The state after one frame, where `look_draw` and `blink_draw` are the
    /// countdowns that a phase restarting on this frame begins with. The eye
    /// stops following its target whenever a glance begins or ends.
    pub open spec fn next(&self, look_draw: i32, blink_draw: i32) -> EyeTimers {
        let look = cycle_step(
            self.look_score_countdown,
            self.look_score_timer,
            self.max_look_score_timer,
            look_draw,
        );
        let blink = cycle_step(self.blink_countdown, self.blink_timer, self.max_blink_timer, blink_draw);
        EyeTimers {
            look_score_countdown: look.0,
            look_score_timer: look.1,
            following_target: if look.2 { false } else { self.following_target },
            blink_countdown: blink.0,
            blink_timer: blink.1,
            ..*self
        }
    }

    /// A fresh eye whose first glance and first blink come after the given
    /// countdowns.
    pub fn from_countdowns(look_score_countdown: i32, blink_countdown: i32) -> (r: EyeTimers)
        requires
            MIN_LOOK_SCORE_COUNTDOWN <= look_score_countdown < MAX_LOOK_SCORE_COUNTDOWN,
            MIN_BLINK_COUNTDOWN <= blink_countdown < MAX_BLINK_COUNTDOWN,
        ensures
            r.wf(),
            r.look_score_timer == 0,
            r.max_look_score_timer == LOOK_SCORE_FRAMES,
            r.look_score_countdown == look_score_countdown,
            r.max_look_score_countdown == MAX_LOOK_SCORE_COUNTDOWN,
            r.min_look_score_countdown == MIN_LOOK_SCORE_COUNTDOWN,
            !r.following_target,
            r.blink_timer == 0,
            r.max_blink_timer == BLINK_FRAMES,
            r.blink_countdown == blink_countdown,
            r.max_blink_countdown == MAX_BLINK_COUNTDOWN,
            r.min_blink_countdown == MIN_BLINK_COUNTDOWN,
    {
        EyeTimers {
            look_score_timer: 0,
            max_look_score_timer: LOOK_SCORE_FRAMES,
            look_score_countdown,
            max_look_score_countdown: MAX_LOOK_SCORE_COUNTDOWN,
            min_look_score_countdown: MIN_LOOK_SCORE_COUNTDOWN,
            following_target: false,
            blink_timer: 0,
            max_blink_timer: BLINK_FRAMES,
            blink_countdown,
            max_blink_countdown: MAX_BLINK_COUNTDOWN,
            min_blink_countdown: MIN_BLINK_COUNTDOWN,
        }
    }

    /// A fresh eye whose first countdowns are drawn at random from their
    /// ranges.
    pub fn new() -> (r: EyeTimers)
        ensures
            r.wf(),
            r.look_score_timer == 0,
            r.max_look_score_timer == LOOK_SCORE_FRAMES,
            MIN_LOOK_SCORE_COUNTDOWN <= r.look_score_countdown < MAX_LOOK_SCORE_COUNTDOWN,
            r.max_look_score_countdown == MAX_LOOK_SCORE_COUNTDOWN,
            r.min_look_score_countdown == MIN_LOOK_SCORE_COUNTDOWN,
            !r.following_target,
            r.blink_timer == 0,
            r.max_blink_timer == BLINK_FRAMES,
            MIN_BLINK_COUNTDOWN <= r.blink_countdown < MAX_BLINK_COUNTDOWN,
            r.max_blink_countdown == MAX_BLINK_COUNTDOWN,
            r.min_blink_countdown == MIN_BLINK_COUNTDOWN,
    {
        let look = random_in_range(MIN_LOOK_SCORE_COUNTDOWN, MAX_LOOK_SCORE_COUNTDOWN);
        let blink = random_in_range(MIN_BLINK_COUNTDOWN, MAX_BLINK_COUNTDOWN);
        EyeTimers::from_countdowns(look, blink)
    }

    /// Advances both activities by one frame, with the given countdowns for
    /// any phase that restarts.
    pub fn step(&mut self, look_draw: i32, blink_draw: i32)
        requires
            old(self).wf(),
            old(self).min_look_score_countdown <= look_draw < old(self).max_look_score_countdown,
            old(self).min_blink_countdown <= blink_draw < old(self).max_blink_countdown,
        ensures
            *final(self) == old(self).next(look_draw, blink_draw),
            final(self).wf(),
    {
        let look = step_cycle(
            self.look_score_countdown,
            self.look_score_timer,
            self.max_look_score_timer,
            look_draw,
        );
        self.look_score_countdown = look.0;
        self.look_score_timer = look.1;
        if look.2 {
            self.following_target = false;
        }
        let blink = step_cycle(self.blink_countdown, self.blink_timer, self.max_blink_timer, blink_draw);
        self.blink_countdown = blink.0;
        self.blink_timer = blink.1;
    }

    /// Advances both activities by one frame; a phase that restarts draws
    /// its countdown at random from its range.
    pub fn update_eye_timers(&mut self)
        requires
            old(self).wf(),
        ensures
            final(self).wf(),
            exists|look_draw: i32, blink_draw: i32|
                old(self).min_look_score_countdown <= look_draw < old(self).max_look_score_countdown
                && old(self).min_blink_countdown <= blink_draw < old(self).max_blink_countdown
                && *final(self) == #[trigger] old(self).next(look_draw, blink_draw),
    {
        let look_draw = random_in_range(self.min_look_score_countdown, self.max_look_score_countdown);
        let blink_draw = random_in_range(self.min_blink_countdown, self.max_blink_countdown);
        self.step(look_draw, blink_draw);
    }

    /// Whether the eye is open (not in the middle of a blink).
    pub fn eye_open(&self) -> (r: bool)
        ensures
            r == (self.blink_timer <= 0),
    {
        self.blink_timer <= 0
    }

    /// Whether the eye is glancing at the score board rather than the ball.
    pub fn looks_at_score(&self) -> (r: bool)
        ensures
            r == (self.look_score_timer > 0),
    {
        self.look_score_timer > 0
    }

    /// Marks the eye as having caught up with its target, so that it tracks
    /// it directly from now on.
    pub fn lock_on(&mut self)
        ensures
            *final(self) == (EyeTimers { following_target: true, ..*old(self) }),
    {
        self.following_target = true;
    }
}

} // verus!
