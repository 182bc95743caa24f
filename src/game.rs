//! The state of a match between frames: whether the ball is in play, the
//! windows for a power shot, the score, and how long the next frame lasts.
use vstd::prelude::*;

verus! {

/// Frames after the player returns the ball during which a press of the
/// shoot key still turns the return into a power shot.
pub const MAX_SHOOT_TIMER: u8 = 10;

/// Frames during which an early press of the shoot key waits for the ball
/// to reach the player.
pub const MAX_SHOOT_BUFFER: u8 = 10;

/// Length of the frame after a power shot, in ordinary frames.
pub const POWER_SHOT_DELAY: u32 = 5;

/// Length of the frame after an ordinary hit, in ordinary frames.
pub const HIT_DELAY: u32 = 3;

/// Length of the frame after a point, in ordinary frames.
pub const POINT_DELAY: u32 = 30;

/// Relies on `String::push`: the character is appended at the end.
pub assume_specification[ String::push ](s: &mut String, ch: char)
    ensures
        final(s)@ == old(s)@.push(ch),
;

/// What a press of the shoot key does.
#[derive(Clone, Copy, Debug, PartialEq, Eq)]
pub enum SpaceAction {
    /// The ball was not in play: it is served.
    Serve,
    /// The player had just returned the ball: the return becomes a power shot.
    PowerShot,
    /// The press is kept for the next return of the player.
    Buffered,
}

/// How the ball leaves a window that it hit.
#[derive(Clone, Copy, Debug, PartialEq, Eq)]
pub enum Shot {
    /// Straight and fast: the player pressed the shoot key just before.
    Power,
    /// An ordinary rebound.
    Plain,
}

/// The state of a match between frames.
#[derive(Clone, Copy, Debug, PartialEq, Eq)]
pub struct Match {
    pub playing: bool,
    pub shoot_timer: u8,
    pub shoot_buffer: u8,
    pub player_score: u8,
    pub ai_score: u8,
    pub delay_multiplier: u32,
}

/// The vertical direction asked for by the arrow keys held down: -1 up,
/// 1 down, 0 for neither or both.
pub open spec fn direction(up: bool, down: bool) -> int {
    (if up { -1int } else { 0int }) + (if down { 1int } else { 0int })
}

/// Executable form of [`direction`].
pub fn input_direction(up_pressed: bool, down_pressed: bool) -> (r: i8)
    ensures
        r == direction(up_pressed, down_pressed),
{
    let mut input: i8 = 0;
    if up_pressed {
        input = input - 1;
    }
    if down_pressed {
        input = input + 1;
    }
    input
}

/// Whether the AI paddle moves toward the ball: it does unless the
/// vertical overlap of paddle and ball exceeds the ball's height.
pub fn ai_chases(overlap_y: i64, ball_height: u32) -> (r: bool)
    ensures
        r == (overlap_y <= ball_height),
{
    overlap_y <= ball_height as i64
}

/// The decimal digit for `d`, which is below 10.
pub open spec fn digit(d: nat) -> char {
    ((d + '0' as nat) as u32) as char
}

/// The decimal numeral of `n`, without leading zeros.
pub open spec fn decimal(n: nat) -> Seq<char>
    decreases n,
{
    if n < 10 {
        seq![digit(n)]
    } else {
        decimal(n / 10).push(digit(n % 10))
    }
}

/// The score as shown on the score board: the two numbers with " - "
/// between them.
pub open spec fn score_text(player: u8, ai: u8) -> Seq<char> {
    decimal(player as nat) + seq![' ', '-', ' '] + decimal(ai as nat)
}

fn digit_char(d: u8) -> (r: char)
    requires
        d < 10,
    ensures
        r == digit(d as nat),
{
    ((d as u32 + '0' as u32) as u8) as char
}

/// Appends the decimal numeral of `n` to `s`.
fn push_decimal(s: &mut String, n: u8)
    ensures
        final(s)@ == old(s)@ + decimal(n as nat),
{
    reveal_with_fuel(decimal, 3);
    if n >= 100 {
        s.push(digit_char(n / 100));
    }
    if n >= 10 {
        s.push(digit_char((n / 10) % 10));
    }
    s.push(digit_char(n % 10));
    assert(n >= 100 ==> (n as nat / 10) / 10 == n as nat / 100 && (n as nat / 10) % 10 == (n / 10) % 10);
    assert(final(s)@ =~= old(s)@ + decimal(n as nat));
}

impl Match {
    /// A match not yet served, at nil all.
    pub fn new() -> (r: Match)
        ensures
            r == (Match {
                playing: false,
                shoot_timer: 0,
                shoot_buffer: 0,
                player_score: 0,
                ai_score: 0,
                delay_multiplier: 1,
            }),
    {
        Match {
            playing: false,
            shoot_timer: 0,
            shoot_buffer: 0,
            player_score: 0,
            ai_score: 0,
            delay_multiplier: 1,
        }
    }

    /// A press of the shoot key.
    pub fn press_space(&mut self) -> (r: SpaceAction)
        ensures
            !old(self).playing ==> r == SpaceAction::Serve
                && *final(self) == (Match { playing: true, ..*old(self) }),
            old(self).playing && old(self).shoot_timer > 0 ==> r == SpaceAction::PowerShot
                && *final(self) == (Match {
                    shoot_timer: 0,
                    delay_multiplier: POWER_SHOT_DELAY,
                    ..*old(self)
                }),
            old(self).playing && old(self).shoot_timer == 0 ==> r == SpaceAction::Buffered
                && *final(self) == (Match { shoot_buffer: MAX_SHOOT_BUFFER, ..*old(self) }),
    {
        if !self.playing {
            self.playing = true;
            SpaceAction::Serve
        } else if self.shoot_timer > 0 {
            self.shoot_timer = 0;
            self.delay_multiplier = POWER_SHOT_DELAY;
            SpaceAction::PowerShot
        } else {
            self.shoot_buffer = MAX_SHOOT_BUFFER;
            SpaceAction::Buffered
        }
    }

    /// The ball hit a window; `by_player` tells whether it is the player's
    /// paddle.
    pub fn ball_hit(&mut self, by_player: bool) -> (r: Shot)
        ensures
            by_player && old(self).shoot_buffer > 0 ==> r == Shot::Power
                && *final(self) == (Match {
                    shoot_buffer: 0,
                    delay_multiplier: POWER_SHOT_DELAY,
                    ..*old(self)
                }),
            by_player && old(self).shoot_buffer == 0 ==> r == Shot::Plain
                && *final(self) == (Match {
                    shoot_timer: MAX_SHOOT_TIMER,
                    delay_multiplier: HIT_DELAY,
                    ..*old(self)
                }),
            !by_player ==> r == Shot::Plain
                && *final(self) == (Match { delay_multiplier: HIT_DELAY, ..*old(self) }),
    {
        if by_player && self.shoot_buffer > 0 {
            self.shoot_buffer = 0;
            self.delay_multiplier = POWER_SHOT_DELAY;
            Shot::Power
        } else {
            if by_player {
                self.shoot_timer = MAX_SHOOT_TIMER;
            }
            self.delay_multiplier = HIT_DELAY;
            Shot::Plain
        }
    }

    /// The ball left the field, over the left edge when `out_left` (a point
    /// for the AI) and over the right edge otherwise (a point for the
    /// player). The ball is out of play until served again. A score wraps
    /// round to 0 after 255.
    pub fn point_scored(&mut self, out_left: bool)
        ensures
            out_left ==> final(self).ai_score == (old(self).ai_score + 1) % 256
                && final(self).player_score == old(self).player_score,
            !out_left ==> final(self).player_score == (old(self).player_score + 1) % 256
                && final(self).ai_score == old(self).ai_score,
            !final(self).playing,
            final(self).delay_multiplier == POINT_DELAY,
            final(self).shoot_timer == old(self).shoot_timer,
            final(self).shoot_buffer == old(self).shoot_buffer,
    {
        if out_left {
            self.ai_score = self.ai_score.wrapping_add(1);
        } else {
            self.player_score = self.player_score.wrapping_add(1);
        }
        self.playing = false;
        self.delay_multiplier = POINT_DELAY;
    }

    /// The end of a frame: the power-shot windows shrink by one frame each.
    pub fn tick_timers(&mut self)
        ensures
            *final(self) == (Match {
                shoot_timer: if old(self).shoot_timer > 0 { (old(self).shoot_timer - 1) as u8 } else { 0 },
                shoot_buffer: if old(self).shoot_buffer > 0 { (old(self).shoot_buffer - 1) as u8 } else { 0 },
                ..*old(self)
            }),
    {
        if self.shoot_buffer > 0 {
            self.shoot_buffer = self.shoot_buffer - 1;
        }
        if self.shoot_timer > 0 {
            self.shoot_timer = self.shoot_timer - 1;
        }
    }

    /// After a frame has been waited out: a longer frame goes back to the
    /// ordinary length. Returns whether it was longer, in which case the
    /// windows take back their usual colours.
    pub fn end_delay(&mut self) -> (r: bool)
        ensures
            r == (old(self).delay_multiplier > 1),
            *final(self) == (Match {
                delay_multiplier: if r { 1 } else { old(self).delay_multiplier },
                ..*old(self)
            }),
    {
        if self.delay_multiplier > 1 {
            self.delay_multiplier = 1;
            true
        } else {
            false
        }
    }

    /// The score as the score board shows it, such as "3 - 11".
    pub fn score_label(&self) -> (r: String)
        ensures
            r@ == score_text(self.player_score, self.ai_score),
    {
        let mut s = String::new();
        push_decimal(&mut s, self.player_score);
        s.push(' ');
        s.push('-');
        s.push(' ');
        push_decimal(&mut s, self.ai_score);
        assert(s@ =~= score_text(self.player_score, self.ai_score));
        s
    }
}

} // verus!
