//! The game as a mathematical value, and each of its transitions as a
//! function on that value.

use vstd::prelude::*;
use crate::action::{Action, Contacts, Direction, Keys, PaddleKeys, Phase, Side, SpeedTier};
use crate::window::Window;

verus! {

/// The winner's name when the left player wins.
pub open spec fn left_player() -> Seq<char> {
    "Left Player"@
}

/// The winner's name when the right player wins.
pub open spec fn right_player() -> Seq<char> {
    "Right Player"@
}

/// `plan` if `cond` holds, nothing otherwise.
pub open spec fn plan_if(cond: bool, plan: Seq<Action>) -> Seq<Action> {
    if cond {
        plan
    } else {
        Seq::empty()
    }
}

/// A bounce: the ball picks up full speed and turns around on one axis.
pub open spec fn bounce_plan(flip: Action) -> Seq<Action> {
    seq![Action::Rescale { speed: SpeedTier::Full }, flip]
}

/// The ball goes back to the middle at its initial speed.
pub open spec fn recenter_plan(window: Window) -> Seq<Action> {
    seq![Action::PlaceBall { at: window.center }, Action::Rescale { speed: SpeedTier::Init }]
}

/// The key for the given paddle and direction is held.
pub open spec fn held(keys: PaddleKeys, paddle: Side, direction: Direction) -> bool {
    match (paddle, direction) {
        (Side::Left, Direction::Up) => keys.left_up,
        (Side::Left, Direction::Down) => keys.left_down,
        (Side::Right, Direction::Up) => keys.right_up,
        (Side::Right, Direction::Down) => keys.right_down,
    }
}

/// One paddle's move in one direction.
pub open spec fn nudge_plan(paddle: Side, direction: Direction) -> Seq<Action> {
    seq![Action::Nudge { paddle, direction }]
}

/// What the host does to the paddles in a frame: a move for every key that
/// is held, the left paddle before the right one and up before down.
pub open spec fn paddle_plan(keys: PaddleKeys) -> Seq<Action> {
    plan_if(keys.left_up, nudge_plan(Side::Left, Direction::Up))
        + plan_if(keys.left_down, nudge_plan(Side::Left, Direction::Down))
        + plan_if(keys.right_up, nudge_plan(Side::Right, Direction::Up))
        + plan_if(keys.right_down, nudge_plan(Side::Right, Direction::Down))
}

/// The state that the rules keep.
pub struct GameView {
    pub window: Window,
    pub ball_speed: SpeedTier,
    pub is_started: bool,
    pub is_running: bool,
    pub is_ended: bool,
    pub left_score: int,
    pub right_score: int,
    pub win_score: int,
    pub winner: Seq<char>,
    pub show_debug: bool,
}

impl GameView {
    /// The phase that the two flags encode.
    pub open spec fn phase(self) -> Phase {
        if self.is_ended {
            Phase::Ended
        } else if self.is_started {
            Phase::Playing
        } else {
            Phase::NotStarted
        }
    }

    /// What holds of the state at every moment, also between a point and
    /// the verdict on it: the grid fits the viewport, no score is negative
    /// or beyond the winning score, and the winner is named exactly when
    /// the game has ended, and is then a side that stands at the winning
    /// score, the right side only if the left one does not.
    pub open spec fn consistent(self) -> bool {
        &&& self.window.wf()
        &&& 1 <= self.win_score
        &&& 0 <= self.left_score <= self.win_score
        &&& 0 <= self.right_score <= self.win_score
        &&& !self.is_ended ==> self.winner == Seq::<char>::empty()
        &&& self.is_ended ==> {
            ||| self.winner == left_player() && self.left_score == self.win_score
            ||| self.winner == right_player() && self.right_score == self.win_score
                && self.left_score < self.win_score
        }
    }

    /// What holds between frames: the state is consistent, and while the
    /// game is undecided both scores lie below the winning score.
    pub open spec fn wf(self) -> bool {
        &&& self.consistent()
        &&& !self.is_ended ==> self.left_score < self.win_score && self.right_score
            < self.win_score
    }

    /// The state with the grid derived anew from the viewport's size.
    pub open spec fn resized(self, width: i32, height: i32) -> GameView {
        GameView { window: Window::of_size(width, height), ..self }
    }

    /// The direction that a serve gives the ball at the current speed.
    pub open spec fn serve(self, toward: Side) -> Action {
        Action::Serve { toward, speed: self.ball_speed }
    }

    /// The state after the opening serve.
    pub open spec fn started(self) -> GameView {
        GameView { ball_speed: SpeedTier::Init, ..self }
    }

    /// What the host does for the opening serve: paddles and ball to the
    /// middle, then the serve at initial speed.
    pub open spec fn start_plan(self, toward: Side) -> Seq<Action> {
        seq![
            Action::PlacePaddles { y: self.window.center.y },
            Action::PlaceBall { at: self.window.center },
            Action::Serve { toward, speed: SpeedTier::Init },
        ]
    }

    /// The state after a reset: back at the title screen with nothing
    /// scored, no winner, and the ball at its initial speed. The viewport,
    /// the winning score and the overlay switch stay as they are.
    pub open spec fn reset(self) -> GameView {
        GameView {
            is_ended: false,
            is_started: false,
            winner: Seq::<char>::empty(),
            left_score: 0,
            right_score: 0,
            ball_speed: SpeedTier::Init,
            ..self
        }
    }

    /// What the host does for a reset: a fresh serve at the speed the ball
    /// had, the ball back in the middle at initial speed, the paddles back
    /// at mid-height.
    pub open spec fn reset_plan(self, toward: Side) -> Seq<Action> {
        seq![self.serve(toward)] + recenter_plan(self.window) + seq![
            Action::PlacePaddles { y: self.window.center.y },
        ]
    }

    /// The given keys reset the game in the current phase.
    pub open spec fn resets_on(self, keys: Keys) -> bool {
        match self.phase() {
            Phase::NotStarted => false,
            Phase::Playing => keys.reset,
            Phase::Ended => keys.restart,
        }
    }

    /// The state after a frame's keys have been dealt with.
    ///
    /// The grid is always derived anew. At the title screen any key starts
    /// the round. During a round the reset key resets, and the overlay key
    /// flips the overlay switch. On the result screen the restart key resets.
    pub open spec fn updated(self, width: i32, height: i32, keys: Keys) -> GameView {
        let g = self.resized(width, height);
        match self.phase() {
            Phase::NotStarted => GameView { is_started: keys.any_pressed, ..g },
            Phase::Playing => {
                let r = if keys.reset {
                    g.reset()
                } else {
                    g
                };
                GameView { show_debug: r.show_debug != keys.debug, ..r }
            },
            Phase::Ended => if keys.restart {
                g.reset()
            } else {
                g
            },
        }
    }

    /// What the host does after a frame's keys have been dealt with: the
    /// plan of a reset if there was one and, in a frame that began in a
    /// round, the paddles pinned to the edges of the viewport as it now is.
    pub open spec fn update_plan(self, width: i32, height: i32, keys: Keys, toward: Side) -> Seq<
        Action,
    > {
        plan_if(self.resets_on(keys), self.resized(width, height).reset_plan(toward)) + plan_if(
            self.phase() == Phase::Playing,
            seq![Action::PinPaddles],
        )
    }

    /// The ball crosses the right edge in this frame. A ball that was just
    /// put back in the middle for crossing the left edge is judged where it
    /// now is, and the middle lies at or beyond the right edge only in a
    /// viewport without width.
    pub open spec fn crosses_right(self, contacts: Contacts) -> bool {
        if contacts.past_left {
            self.window.center.x >= self.window.width
        } else {
            contacts.past_right
        }
    }

    /// The state after the ball's part of a frame.
    pub open spec fn after_ball(self, contacts: Contacts) -> GameView {
        let bounced = contacts.left_paddle || contacts.right_paddle || contacts.wall;
        let point = contacts.past_left || self.crosses_right(contacts);
        GameView {
            ball_speed: if point {
                SpeedTier::Init
            } else if bounced {
                SpeedTier::Full
            } else {
                self.ball_speed
            },
            right_score: if contacts.past_left {
                self.right_score + 1
            } else {
                self.right_score
            },
            left_score: if self.crosses_right(contacts) {
                self.left_score + 1
            } else {
                self.left_score
            },
            ..self
        }
    }

    /// What the host does to the ball in a frame: first the bounces, then the
    /// points, and last the step along the velocity.
    pub open spec fn ball_plan(self, contacts: Contacts) -> Seq<Action> {
        plan_if(contacts.left_paddle, bounce_plan(Action::FlipHorizontal))
            + plan_if(contacts.right_paddle, bounce_plan(Action::FlipHorizontal))
            + plan_if(contacts.wall, bounce_plan(Action::FlipVertical))
            + plan_if(contacts.past_left, recenter_plan(self.window))
            + plan_if(self.crosses_right(contacts), recenter_plan(self.window))
            + seq![Action::Advance]
    }

    /// The state after the score has been held against the winning score.
    /// The left player is looked at first, so a tie goes to the left.
    pub open spec fn judged(self) -> GameView {
        if self.left_score >= self.win_score {
            GameView { is_ended: true, winner: left_player(), ..self }
        } else if self.right_score >= self.win_score {
            GameView { is_ended: true, winner: right_player(), ..self }
        } else {
            self
        }
    }

    /// The state after the simulated part of a frame: the ball's part, then
    /// the verdict on the score.
    pub open spec fn simulated(self, contacts: Contacts) -> GameView {
        self.after_ball(contacts).judged()
    }

    /// The state after a whole frame: the keys first and then, in a frame
    /// that began in `Playing`, the simulation on what the host measured once
    /// the frame's actions were carried out.
    pub open spec fn after_frame(self, width: i32, height: i32, keys: Keys, contacts: Contacts)
        -> GameView {
        let g = self.updated(width, height, keys);
        if self.phase() == Phase::Playing {
            g.simulated(contacts)
        } else {
            g
        }
    }
}

} // verus!
