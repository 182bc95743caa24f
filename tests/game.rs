use window_pong::game::{
    ai_chases, input_direction, Match, Shot, SpaceAction, HIT_DELAY, MAX_SHOOT_BUFFER,
    MAX_SHOOT_TIMER, POINT_DELAY, POWER_SHOT_DELAY,
};

#[test]
fn direction_from_keys() {
    assert_eq!(input_direction(false, false), 0);
    assert_eq!(input_direction(true, false), -1);
    assert_eq!(input_direction(false, true), 1);
    assert_eq!(input_direction(true, true), 0);
}

#[test]
fn ai_chases_unless_ball_inside_reach() {
    assert!(ai_chases(100, 100));
    assert!(ai_chases(-50, 100));
    assert!(!ai_chases(101, 100));
}

#[test]
fn new_match_is_not_served() {
    let m = Match::new();
    assert!(!m.playing);
    assert_eq!((m.player_score, m.ai_score), (0, 0));
    assert_eq!((m.shoot_timer, m.shoot_buffer), (0, 0));
    assert_eq!(m.delay_multiplier, 1);
    assert_eq!(m.score_label(), "0 - 0");
}

#[test]
fn space_serves_then_buffers() {
    let mut m = Match::new();
    assert_eq!(m.press_space(), SpaceAction::Serve);
    assert!(m.playing);
    assert_eq!(m.shoot_buffer, 0);
    assert_eq!(m.press_space(), SpaceAction::Buffered);
    assert_eq!(m.shoot_buffer, MAX_SHOOT_BUFFER);
    assert_eq!(m.shoot_buffer, 10);
}

#[test]
fn space_just_after_return_is_power_shot() {
    let mut m = Match::new();
    m.press_space();
    assert_eq!(m.ball_hit(true), Shot::Plain);
    assert_eq!(m.shoot_timer, MAX_SHOOT_TIMER);
    assert_eq!(m.delay_multiplier, HIT_DELAY);
    assert_eq!(m.press_space(), SpaceAction::PowerShot);
    assert_eq!(m.shoot_timer, 0);
    assert_eq!(m.delay_multiplier, POWER_SHOT_DELAY);
    assert_eq!(m.delay_multiplier, 5);
}

#[test]
fn buffered_press_powers_next_return() {
    let mut m = Match::new();
    m.press_space();
    m.press_space();
    assert_eq!(m.ball_hit(true), Shot::Power);
    assert_eq!(m.shoot_buffer, 0);
    assert_eq!(m.shoot_timer, 0);
    assert_eq!(m.delay_multiplier, 5);
}

#[test]
fn other_windows_give_plain_shots() {
    let mut m = Match::new();
    m.press_space();
    m.press_space();
    assert_eq!(m.ball_hit(false), Shot::Plain);
    assert_eq!(m.shoot_buffer, MAX_SHOOT_BUFFER);
    assert_eq!(m.shoot_timer, 0);
    assert_eq!(m.delay_multiplier, 3);
}

#[test]
fn timers_run_down_to_zero() {
    let mut m = Match::new();
    m.press_space();
    m.press_space();
    m.ball_hit(false);
    for _ in 0..9 {
        m.tick_timers();
    }
    assert_eq!(m.shoot_buffer, 1);
    m.tick_timers();
    assert_eq!(m.shoot_buffer, 0);
    m.tick_timers();
    assert_eq!(m.shoot_buffer, 0);
    assert_eq!(m.shoot_timer, 0);
}

#[test]
fn point_for_each_side() {
    let mut m = Match::new();
    m.press_space();
    m.point_scored(true);
    assert_eq!((m.player_score, m.ai_score), (0, 1));
    assert!(!m.playing);
    assert_eq!(m.delay_multiplier, POINT_DELAY);
    assert_eq!(m.delay_multiplier, 30);
    m.point_scored(false);
    m.point_scored(false);
    assert_eq!((m.player_score, m.ai_score), (2, 1));
    assert_eq!(m.score_label(), "2 - 1");
}

#[test]
fn score_wraps_after_255() {
    let mut m = Match { player_score: 255, ai_score: 254, ..Match::new() };
    assert_eq!(m.score_label(), "255 - 254");
    m.point_scored(false);
    m.point_scored(true);
    assert_eq!((m.player_score, m.ai_score), (0, 255));
}

#[test]
fn labels_of_various_widths() {
    let m = Match { player_score: 3, ai_score: 11, ..Match::new() };
    assert_eq!(m.score_label(), "3 - 11");
    let m = Match { player_score: 100, ai_score: 9, ..Match::new() };
    assert_eq!(m.score_label(), "100 - 9");
    let m = Match { player_score: 10, ai_score: 200, ..Match::new() };
    assert_eq!(m.score_label(), "10 - 200");
}

#[test]
fn delay_ends_after_one_frame() {
    let mut m = Match::new();
    assert!(!m.end_delay());
    assert_eq!(m.delay_multiplier, 1);
    m.press_space();
    m.ball_hit(true);
    assert!(m.end_delay());
    assert_eq!(m.delay_multiplier, 1);
    assert!(!m.end_delay());
}
