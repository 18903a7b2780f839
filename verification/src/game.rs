//! The game state and the operations that move it from frame to frame.

use vstd::prelude::*;
use crate::action::{
    Action, Contacts, Direction, Frame, Keys, PaddleKeys, Phase, Side, SpeedTier,
};
use crate::model::{GameView, bounce_plan, nudge_plan, paddle_plan, plan_if, recenter_plan};
use crate::toss::toss;
use crate::window::Window;

verus! {

/// Everything the rules remember between frames.
#[derive(Clone, Debug)]
pub struct Game {
    pub window: Window,
    pub ball_speed: SpeedTier,
    pub is_started: bool,
    pub is_running: bool,
    pub is_ended: bool,
    pub left_score: i32,
    pub right_score: i32,
    pub win_score: i32,
    pub winner: String,
    pub show_debug: bool,
}

impl View for Game {
    type V = GameView;

    open spec fn view(&self) -> GameView {
        GameView {
            window: self.window,
            ball_speed: self.ball_speed,
            is_started: self.is_started,
            is_running: self.is_running,
            is_ended: self.is_ended,
            left_score: self.left_score as int,
            right_score: self.right_score as int,
            win_score: self.win_score as int,
            winner: self.winner@,
            show_debug: self.show_debug,
        }
    }
}

/// The score that wins a game.
pub const WIN_SCORE: i32 = 10;

impl Game {
    /// A game at the title screen, on a viewport of the given size, to be
    /// won at `WIN_SCORE` points.
    pub fn new(width: i32, height: i32) -> (game: Game)
        ensures
            game@ == (GameView {
                window: Window::of_size(width, height),
                ball_speed: SpeedTier::Init,
                is_started: false,
                is_running: true,
                is_ended: false,
                left_score: 0,
                right_score: 0,
                win_score: WIN_SCORE as int,
                winner: Seq::<char>::empty(),
                show_debug: false,
            }),
            game@.wf(),
    {
        Game {
            window: Window::new(width, height),
            ball_speed: SpeedTier::Init,
            is_started: false,
            is_running: true,
            is_ended: false,
            left_score: 0,
            right_score: 0,
            win_score: WIN_SCORE,
            winner: String::new(),
            show_debug: false,
        }
    }

    /// The phase that the game is in.
    pub fn phase(&self) -> (phase: Phase)
        ensures
            phase == self@.phase(),
    {
        if self.is_ended {
            Phase::Ended
        } else if self.is_started {
            Phase::Playing
        } else {
            Phase::NotStarted
        }
    }

    /// Derives the grid anew from the size that the host reports.
    pub fn update_window_props(&mut self, width: i32, height: i32)
        ensures
            final(self)@ == old(self)@.resized(width, height),
            final(self).window.wf(),
    {
        self.window = Window::new(width, height);
    }

    /// The serve toward the given side at the current speed.
    pub fn serve(&self, toward: Side) -> (action: Action)
        ensures
            action == self@.serve(toward),
    {
        Action::Serve { toward, speed: self.ball_speed }
    }

    /// A serve at the current speed toward a side picked by chance.
    pub fn get_ball_direction(&self) -> (action: Action)
        ensures
            action == self@.serve(Side::Left) || action == self@.serve(Side::Right),
    {
        let toward = toss();
        self.serve(toward)
    }

    /// Asks the host to put both paddles back at mid-height.
    fn reset_paddles(&self, plan: &mut Vec<Action>)
        ensures
            final(plan)@ == old(plan)@.push(Action::PlacePaddles { y: self.window.center.y }),
    {
        plan.push(Action::PlacePaddles { y: self.window.center.y });
    }

    /// Asks the host to move a paddle if the key for it is held.
    fn nudge_on(held: bool, paddle: Side, direction: Direction, plan: &mut Vec<Action>)
        ensures
            final(plan)@ == old(plan)@ + plan_if(held, nudge_plan(paddle, direction)),
    {
        if held {
            plan.push(Action::Nudge { paddle, direction });
        }
    }

    /// The paddles' part of a frame: a move for every key that is held, the
    /// left paddle before the right one and up before down. Whether a move
    /// takes place is for the host to find out when its turn comes, on the
    /// paddle as it then stands.
    pub fn handle_paddles_movement(&self, keys: PaddleKeys) -> (plan: Vec<Action>)
        ensures
            plan@ == paddle_plan(keys),
    {
        let mut plan: Vec<Action> = Vec::new();
        Self::nudge_on(keys.left_up, Side::Left, Direction::Up, &mut plan);
        assert(plan@ == plan_if(keys.left_up, nudge_plan(Side::Left, Direction::Up)));
        Self::nudge_on(keys.left_down, Side::Left, Direction::Down, &mut plan);
        Self::nudge_on(keys.right_up, Side::Right, Direction::Up, &mut plan);
        Self::nudge_on(keys.right_down, Side::Right, Direction::Down, &mut plan);
        plan
    }

    /// Asks the host to bring the velocity to the current speed.
    fn update_ball_speed(&self, plan: &mut Vec<Action>)
        ensures
            final(plan)@ == old(plan)@.push(Action::Rescale { speed: self.ball_speed }),
    {
        plan.push(Action::Rescale { speed: self.ball_speed });
    }

    /// Puts the ball back in the middle of the viewport at its initial speed.
    fn reset_ball(&mut self, plan: &mut Vec<Action>)
        ensures
            final(self)@ == (GameView { ball_speed: SpeedTier::Init, ..old(self)@ }),
            final(plan)@ == old(plan)@ + recenter_plan(old(self).window),
    {
        plan.push(Action::PlaceBall { at: self.window.center });
        self.ball_speed = SpeedTier::Init;
        self.update_ball_speed(plan);
    }

    /// If the ball has hit something, it bounces: full speed from here on,
    /// and one component of the velocity turns around.
    fn bounce_on(&mut self, hit: bool, flip: Action, plan: &mut Vec<Action>)
        ensures
            final(self)@ == if hit {
                GameView { ball_speed: SpeedTier::Full, ..old(self)@ }
            } else {
                old(self)@
            },
            final(plan)@ == old(plan)@ + plan_if(hit, bounce_plan(flip)),
    {
        if hit {
            self.ball_speed = SpeedTier::Full;
            self.update_ball_speed(plan);
            plan.push(flip);
        }
    }

    /// If the ball has left the court, `scorer` gets a point and the ball
    /// goes back to the middle.
    fn point_on(&mut self, crossed: bool, scorer: Side, plan: &mut Vec<Action>)
        requires
            scorer == Side::Left ==> old(self).left_score < i32::MAX,
            scorer == Side::Right ==> old(self).right_score < i32::MAX,
        ensures
            final(self)@ == if !crossed {
                old(self)@
            } else if scorer == Side::Left {
                GameView {
                    left_score: old(self)@.left_score + 1,
                    ball_speed: SpeedTier::Init,
                    ..old(self)@
                }
            } else {
                GameView {
                    right_score: old(self)@.right_score + 1,
                    ball_speed: SpeedTier::Init,
                    ..old(self)@
                }
            },
            final(plan)@ == old(plan)@ + plan_if(crossed, recenter_plan(old(self).window)),
    {
        if crossed {
            match scorer {
                Side::Left => {
                    self.left_score = self.left_score + 1;
                },
                Side::Right => {
                    self.right_score = self.right_score + 1;
                },
            }
            self.reset_ball(plan);
        }
    }

    /// The ball's part of a frame: bounces off the paddles and the walls,
    /// points for a ball that has left the court, and the step along the
    /// velocity. Updates the speed tier and the score, and returns what the
    /// host is to do to the ball, in order.
    ///
    /// A ball beyond the left edge is a point for the right player, and the
    /// other way round. The right edge is tested after the left one has been
    /// dealt with, on the ball as it then stands.
    pub fn handle_ball_movement(&mut self, contacts: Contacts) -> (plan: Vec<Action>)
        requires
            old(self).left_score < i32::MAX,
            old(self).right_score < i32::MAX,
        ensures
            final(self)@ == old(self)@.after_ball(contacts),
            plan@ == old(self)@.ball_plan(contacts),
            old(self)@.wf() && !old(self).is_ended ==> final(self)@.consistent(),
    {
        let mut plan: Vec<Action> = Vec::new();
        self.bounce_on(contacts.left_paddle, Action::FlipHorizontal, &mut plan);
        assert(plan@ == plan_if(contacts.left_paddle, bounce_plan(Action::FlipHorizontal)));
        self.bounce_on(contacts.right_paddle, Action::FlipHorizontal, &mut plan);
        self.bounce_on(contacts.wall, Action::FlipVertical, &mut plan);
        self.point_on(contacts.past_left, Side::Right, &mut plan);
        let crosses_right = if contacts.past_left {
            self.window.center.x >= self.window.width
        } else {
            contacts.past_right
        };
        self.point_on(crosses_right, Side::Left, &mut plan);
        let ghost before = plan@;
        plan.push(Action::Advance);
        assert(plan@ == before + seq![Action::Advance]);
        plan
    }

    /// Holds the score against the winning score, and ends the game for the
    /// first side found to have reached it, the left side being looked at
    /// first.
    pub fn handle_score(&mut self)
        ensures
            final(self)@ == old(self)@.judged(),
            old(self)@.consistent() ==> final(self)@.wf(),
    {
        if self.left_score >= self.win_score {
            self.is_ended = true;
            self.winner = "Left Player".to_owned();
        } else if self.right_score >= self.win_score {
            self.is_ended = true;
            self.winner = "Right Player".to_owned();
        }
    }

    /// The simulated part of a frame that began in `Playing`: the ball's
    /// part, then the verdict on the score, so that the frame in which the
    /// winning point falls is also the frame in which the game ends.
    pub fn simulate(&mut self, contacts: Contacts) -> (plan: Vec<Action>)
        requires
            old(self).left_score < i32::MAX,
            old(self).right_score < i32::MAX,
        ensures
            final(self)@ == old(self)@.simulated(contacts),
            plan@ == old(self)@.ball_plan(contacts),
            old(self)@.wf() && !old(self).is_ended ==> final(self)@.wf(),
    {
        let plan = self.handle_ball_movement(contacts);
        self.handle_score();
        plan
    }

    /// Opens the game with a serve toward the given side.
    pub fn start_toward(&mut self, toward: Side) -> (plan: Vec<Action>)
        ensures
            final(self)@ == old(self)@.started(),
            plan@ == old(self)@.start_plan(toward),
            old(self)@.wf() ==> final(self)@.wf(),
    {
        let mut plan: Vec<Action> = Vec::new();
        self.reset_paddles(&mut plan);
        plan.push(Action::PlaceBall { at: self.window.center });
        self.ball_speed = SpeedTier::Init;
        let serve = self.serve(toward);
        plan.push(serve);
        plan
    }

    /// Opens the game with a serve toward a side picked by chance.
    pub fn start(&mut self) -> (plan: Vec<Action>)
        ensures
            final(self)@ == old(self)@.started(),
            plan@ == old(self)@.start_plan(Side::Left) || plan@ == old(self)@.start_plan(
                Side::Right,
            ),
            old(self)@.wf() ==> final(self)@.wf(),
    {
        let toward = toss();
        self.start_toward(toward)
    }

    /// Resets the game, with the next serve toward the given side.
    pub fn reset_game_toward(&mut self, toward: Side) -> (plan: Vec<Action>)
        ensures
            final(self)@ == old(self)@.reset(),
            plan@ == old(self)@.reset_plan(toward),
            old(self)@.consistent() ==> final(self)@.wf(),
    {
        let mut plan: Vec<Action> = Vec::new();
        self.is_ended = false;
        self.is_started = false;
        self.winner = String::new();
        self.left_score = 0;
        self.right_score = 0;
        let serve = self.serve(toward);
        plan.push(serve);
        self.reset_ball(&mut plan);
        self.reset_paddles(&mut plan);
        plan
    }

    /// Resets the game, with the next serve toward a side picked by chance.
    pub fn reset_game(&mut self) -> (plan: Vec<Action>)
        ensures
            final(self)@ == old(self)@.reset(),
            plan@ == old(self)@.reset_plan(Side::Left) || plan@ == old(self)@.reset_plan(
                Side::Right,
            ),
            old(self)@.consistent() ==> final(self)@.wf(),
    {
        let toward = toss();
        self.reset_game_toward(toward)
    }

    /// Whether the given keys reset the game in its current phase.
    pub fn resets_on(&self, keys: Keys) -> (resets: bool)
        ensures
            resets == self@.resets_on(keys),
    {
        match self.phase() {
            Phase::NotStarted => false,
            Phase::Playing => keys.reset,
            Phase::Ended => keys.restart,
        }
    }

    /// One frame's keys, with any serve going toward the given side.
    ///
    /// The grid is derived anew from the size reported. Then, by phase: at
    /// the title screen any key starts the round; during a round the reset
    /// key resets the game, the paddles are pinned to the edges of the
    /// viewport, and the overlay key flips the overlay switch; on the result
    /// screen the restart key resets the game. The frame returned names the
    /// phase in which the call found the game.
    pub fn update_toward(&mut self, width: i32, height: i32, keys: Keys, toward: Side) -> (frame:
        Frame)
        ensures
            final(self)@ == old(self)@.updated(width, height, keys),
            frame.phase == old(self)@.phase(),
            frame.actions@ == old(self)@.update_plan(width, height, keys, toward),
            old(self)@.wf() ==> final(self)@.wf(),
    {
        let phase = self.phase();
        self.update_window_props(width, height);
        let mut actions: Vec<Action> = Vec::new();
        match phase {
            Phase::NotStarted => {
                if keys.any_pressed {
                    self.is_started = true;
                }
            },
            Phase::Playing => {
                if keys.reset {
                    actions = self.reset_game_toward(toward);
                }
                actions.push(Action::PinPaddles);
                if keys.debug {
                    self.show_debug = !self.show_debug;
                }
            },
            Phase::Ended => {
                if keys.restart {
                    actions = self.reset_game_toward(toward);
                }
            },
        }
        Frame { phase, actions }
    }

    /// One frame's keys, with any serve going toward a side picked by
    /// chance. Chance is consulted only in a frame that resets the game.
    pub fn update(&mut self, width: i32, height: i32, keys: Keys) -> (frame: Frame)
        ensures
            final(self)@ == old(self)@.updated(width, height, keys),
            frame.phase == old(self)@.phase(),
            frame.actions@ == old(self)@.update_plan(width, height, keys, Side::Left)
                || frame.actions@ == old(self)@.update_plan(width, height, keys, Side::Right),
            old(self)@.wf() ==> final(self)@.wf(),
    {
        let toward = if self.resets_on(keys) {
            toss()
        } else {
            Side::Left
        };
        self.update_toward(width, height, keys, toward)
    }
}

} // verus!
