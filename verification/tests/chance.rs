use pong::action::{Action, Keys, Phase, Side, SpeedTier};
use pong::game::Game;
use pong::toss::{side_of, toss};
use pong::window::Point;

#[test]
fn heads_serves_to_the_left() {
    assert_eq!(side_of(true), Side::Left);
    assert_eq!(side_of(false), Side::Right);
}

#[test]
fn toss_lands_on_both_sides() {
    let mut left = 0;
    let mut right = 0;
    for _ in 0..400 {
        match toss() {
            Side::Left => left += 1,
            Side::Right => right += 1,
        }
    }
    assert!(left > 0);
    assert!(right > 0);
    assert_eq!(left + right, 400);
}

#[test]
fn ball_direction_is_a_serve_at_the_current_speed() {
    let mut game = Game::new(1200, 1200);
    game.ball_speed = SpeedTier::Full;
    let mut left = false;
    let mut right = false;
    for _ in 0..400 {
        match game.get_ball_direction() {
            Action::Serve { toward: Side::Left, speed: SpeedTier::Full } => left = true,
            Action::Serve { toward: Side::Right, speed: SpeedTier::Full } => right = true,
            other => panic!("not a serve at full speed: {:?}", other),
        }
    }
    assert!(left && right);
}

#[test]
fn start_serves_one_way_or_the_other() {
    for _ in 0..50 {
        let mut game = Game::new(1200, 1200);
        let plan = game.start();
        assert_eq!(plan.len(), 3);
        assert_eq!(plan[0], Action::PlacePaddles { y: 600 });
        assert_eq!(plan[1], Action::PlaceBall { at: Point { x: 600, y: 600 } });
        assert!(matches!(plan[2], Action::Serve { speed: SpeedTier::Init, .. }));
        assert_eq!(game.ball_speed, SpeedTier::Init);
        assert_eq!(game.phase(), Phase::NotStarted);
    }
}

#[test]
fn reset_serves_one_way_or_the_other() {
    for _ in 0..50 {
        let mut game = Game::new(1200, 1200);
        game.is_started = true;
        game.left_score = 4;
        let plan = game.reset_game();
        assert_eq!(plan.len(), 4);
        assert!(matches!(plan[0], Action::Serve { speed: SpeedTier::Init, .. }));
        assert_eq!(plan[1], Action::PlaceBall { at: Point { x: 600, y: 600 } });
        assert_eq!(plan[2], Action::Rescale { speed: SpeedTier::Init });
        assert_eq!(plan[3], Action::PlacePaddles { y: 600 });
        assert_eq!(game.left_score, 0);
        assert_eq!(game.phase(), Phase::NotStarted);
    }
}

#[test]
fn update_consults_chance_only_for_a_reset() {
    let mut game = Game::new(1200, 1200);
    game.is_started = true;
    let keys = Keys { any_pressed: false, reset: true, restart: false, debug: false };
    let frame = game.update(1200, 1200, keys);
    assert_eq!(frame.phase, Phase::Playing);
    assert_eq!(frame.actions.len(), 5);
    assert!(matches!(frame.actions[0], Action::Serve { speed: SpeedTier::Init, .. }));
    assert_eq!(frame.actions[4], Action::PinPaddles);
    assert_eq!(game.phase(), Phase::NotStarted);
}
