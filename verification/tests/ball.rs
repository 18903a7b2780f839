use pong::action::{Action, Contacts, Keys, Phase, Side, SpeedTier};
use pong::game::Game;
use pong::window::Point;

fn no_contacts() -> Contacts {
    Contacts {
        left_paddle: false,
        right_paddle: false,
        wall: false,
        past_left: false,
        past_right: false,
    }
}

fn playing(width: i32, height: i32) -> Game {
    let mut game = Game::new(width, height);
    game.start_toward(Side::Left);
    let keys = Keys { any_pressed: true, reset: false, restart: false, debug: false };
    game.update(width, height, keys);
    game
}

const FULL: Action = Action::Rescale { speed: SpeedTier::Full };
const INIT: Action = Action::Rescale { speed: SpeedTier::Init };

#[test]
fn free_ball_only_advances() {
    let mut game = playing(1200, 1200);
    let plan = game.handle_ball_movement(no_contacts());
    assert_eq!(plan, vec![Action::Advance]);
    assert_eq!(game.ball_speed, SpeedTier::Init);
    assert_eq!(game.left_score, 0);
    assert_eq!(game.right_score, 0);
}

#[test]
fn left_paddle_turns_the_ball_around() {
    let mut game = playing(1200, 1200);
    let plan = game.handle_ball_movement(Contacts { left_paddle: true, ..no_contacts() });
    assert_eq!(plan, vec![FULL, Action::FlipHorizontal, Action::Advance]);
    assert_eq!(game.ball_speed, SpeedTier::Full);
}

#[test]
fn right_paddle_turns_the_ball_around() {
    let mut game = playing(1200, 1200);
    let plan = game.handle_ball_movement(Contacts { right_paddle: true, ..no_contacts() });
    assert_eq!(plan, vec![FULL, Action::FlipHorizontal, Action::Advance]);
    assert_eq!(game.ball_speed, SpeedTier::Full);
}

#[test]
fn wall_turns_the_ball_back_into_the_court() {
    let mut game = playing(1200, 1200);
    let plan = game.handle_ball_movement(Contacts { wall: true, ..no_contacts() });
    assert_eq!(plan, vec![FULL, Action::FlipVertical, Action::Advance]);
    assert_eq!(game.ball_speed, SpeedTier::Full);
    assert_eq!(game.left_score + game.right_score, 0);
}

#[test]
fn full_speed_lasts_until_a_point() {
    let mut game = playing(1200, 1200);
    game.handle_ball_movement(Contacts { wall: true, ..no_contacts() });
    game.handle_ball_movement(no_contacts());
    assert_eq!(game.ball_speed, SpeedTier::Full);
    game.handle_ball_movement(Contacts { past_right: true, ..no_contacts() });
    assert_eq!(game.ball_speed, SpeedTier::Init);
    game.handle_ball_movement(no_contacts());
    assert_eq!(game.ball_speed, SpeedTier::Init);
}

#[test]
fn paddle_and_wall_in_one_frame() {
    let mut game = playing(1200, 1200);
    let contacts = Contacts { left_paddle: true, right_paddle: true, wall: true, ..no_contacts() };
    let plan = game.handle_ball_movement(contacts);
    assert_eq!(
        plan,
        vec![
            FULL,
            Action::FlipHorizontal,
            FULL,
            Action::FlipHorizontal,
            FULL,
            Action::FlipVertical,
            Action::Advance,
        ]
    );
}

#[test]
fn ball_past_the_left_edge_is_a_point_for_the_right() {
    let mut game = playing(1200, 1200);
    game.left_score = 2;
    game.right_score = 5;
    game.ball_speed = SpeedTier::Full;
    let plan = game.handle_ball_movement(Contacts { past_left: true, ..no_contacts() });
    assert_eq!(game.right_score, 6);
    assert_eq!(game.left_score, 2);
    assert_eq!(game.ball_speed, SpeedTier::Init);
    assert_eq!(
        plan,
        vec![Action::PlaceBall { at: Point { x: 600, y: 600 } }, INIT, Action::Advance]
    );
    assert_eq!(game.phase(), Phase::Playing);
}

#[test]
fn ball_past_the_right_edge_is_a_point_for_the_left() {
    let mut game = playing(1200, 600);
    game.left_score = 2;
    game.right_score = 5;
    let plan = game.handle_ball_movement(Contacts { past_right: true, ..no_contacts() });
    assert_eq!(game.left_score, 3);
    assert_eq!(game.right_score, 5);
    assert_eq!(game.ball_speed, SpeedTier::Init);
    assert_eq!(
        plan,
        vec![Action::PlaceBall { at: Point { x: 600, y: 300 } }, INIT, Action::Advance]
    );
}

#[test]
fn point_comes_after_the_bounce_of_the_same_frame() {
    let mut game = playing(1200, 1200);
    let plan = game.handle_ball_movement(Contacts { wall: true, past_left: true, ..no_contacts() });
    assert_eq!(
        plan,
        vec![
            FULL,
            Action::FlipVertical,
            Action::PlaceBall { at: Point { x: 600, y: 600 } },
            INIT,
            Action::Advance,
        ]
    );
    assert_eq!(game.ball_speed, SpeedTier::Init);
    assert_eq!(game.right_score, 1);
}

#[test]
fn ball_put_back_in_the_middle_is_inside_the_court() {
    let mut game = playing(1200, 1200);
    let contacts = Contacts { past_left: true, past_right: true, ..no_contacts() };
    let plan = game.handle_ball_movement(contacts);
    assert_eq!(game.right_score, 1);
    assert_eq!(game.left_score, 0);
    assert_eq!(
        plan,
        vec![Action::PlaceBall { at: Point { x: 600, y: 600 } }, INIT, Action::Advance]
    );
}

#[test]
fn viewport_without_width_scores_for_both() {
    let mut game = playing(0, 1200);
    let plan = game.handle_ball_movement(Contacts { past_left: true, ..no_contacts() });
    assert_eq!(game.right_score, 1);
    assert_eq!(game.left_score, 1);
    let middle = Action::PlaceBall { at: Point { x: 0, y: 600 } };
    assert_eq!(plan, vec![middle, INIT, middle, INIT, Action::Advance]);
}

#[test]
fn viewport_without_width_ends_in_a_tie_for_the_left() {
    let mut game = playing(0, 0);
    let mut frames = 0;
    while game.phase() == Phase::Playing {
        game.simulate(Contacts { past_left: true, past_right: true, ..no_contacts() });
        frames += 1;
    }
    assert_eq!(frames, 10);
    assert_eq!(game.left_score, 10);
    assert_eq!(game.right_score, 10);
    assert_eq!(game.winner, "Left Player");
}

#[test]
fn ten_points_win_the_game() {
    let mut game = playing(1200, 1200);
    for point in 1..=9 {
        game.simulate(Contacts { past_left: true, ..no_contacts() });
        assert_eq!(game.right_score, point);
        assert_eq!(game.phase(), Phase::Playing);
        assert_eq!(game.winner, "");
    }
    game.simulate(Contacts { past_left: true, ..no_contacts() });
    assert_eq!(game.right_score, 10);
    assert_eq!(game.left_score, 0);
    assert_eq!(game.phase(), Phase::Ended);
    assert_eq!(game.winner, "Right Player");
}

#[test]
fn simulate_is_the_ball_then_the_verdict() {
    let mut one = playing(1200, 1200);
    one.right_score = 9;
    let mut two = one.clone();
    let contacts = Contacts { left_paddle: true, past_left: true, ..no_contacts() };
    let plan_one = one.simulate(contacts);
    let plan_two = two.handle_ball_movement(contacts);
    assert_eq!(two.phase(), Phase::Playing);
    two.handle_score();
    assert_eq!(plan_one, plan_two);
    assert_eq!(one.phase(), Phase::Ended);
    assert_eq!(two.phase(), Phase::Ended);
    assert_eq!(one.winner, two.winner);
    assert_eq!(one.right_score, two.right_score);
    assert_eq!(one.ball_speed, two.ball_speed);
}
