//! The vocabulary that the rules and their host share.
//!
//! The host measures and reports ([`Keys`], [`Contacts`]); the rules decide
//! and answer with [`Action`]s, which the host carries out in the order given.

use vstd::prelude::*;
use crate::window::Point;

verus! {

/// One of the two players, or the half of the court that is theirs.
#[derive(Clone, Copy, Debug, PartialEq, Eq, Structural)]
pub enum Side {
    Left,
    Right,
}

/// The two speeds at which the ball travels. The speed never changes
/// gradually: it drops to `Init` when a point is played out or the game is
/// reset, and rises to `Full` at the first bounce.
#[derive(Clone, Copy, Debug, PartialEq, Eq, Structural)]
pub enum SpeedTier {
    Init,
    Full,
}

/// The two ways a paddle can go.
#[derive(Clone, Copy, Debug, PartialEq, Eq, Structural)]
pub enum Direction {
    Up,
    Down,
}

/// Where the game stands.
#[derive(Clone, Copy, Debug, PartialEq, Eq, Structural)]
pub enum Phase {
    /// The title screen: waiting for any key.
    NotStarted,
    /// A round is being played.
    Playing,
    /// One side has reached the winning score; waiting for a restart.
    Ended,
}

/// One thing for the host to do to the paddles or the ball.
#[derive(Clone, Copy, Debug, PartialEq, Eq, Structural)]
pub enum Action {
    /// Put both paddles at height `y`.
    PlacePaddles { y: i32 },
    /// Put each paddle half a grid slice inside its own edge of the grid.
    PinPaddles,
    /// Move one paddle by a frame's travel in the given direction, provided
    /// that before the move it stands strictly inside the limit on that side
    /// of its band. The band runs from 1.6 to 10.4 grid slices down the
    /// viewport; a paddle may leave it by less than one frame's travel.
    Nudge { paddle: Side, direction: Direction },
    /// Put the ball at `at`, leaving its velocity alone.
    PlaceBall { at: Point },
    /// Point the ball at `toward`'s side: the velocity becomes `speed` times
    /// (-0.8, -0.2) for `Left`, and `speed` times (0.8, 0.2) for `Right`.
    Serve { toward: Side, speed: SpeedTier },
    /// Scale the velocity so that the absolute values of its two components
    /// add up to `speed`, keeping the sign of each.
    Rescale { speed: SpeedTier },
    /// Negate the velocity's horizontal component.
    FlipHorizontal,
    /// Negate the velocity's vertical component.
    FlipVertical,
    /// Add the velocity to the ball's position, once.
    Advance,
}

/// The keys that steer the game as a whole, as polled for one frame.
#[derive(Clone, Copy, Debug, PartialEq, Eq, Structural)]
pub struct Keys {
    /// Some key went down during this frame.
    pub any_pressed: bool,
    /// The key that abandons the round went down.
    pub reset: bool,
    /// The key that leaves the result screen went down.
    pub restart: bool,
    /// The key that shows or hides the debug overlay went down.
    pub debug: bool,
}

/// The keys that steer the paddles, as held down during one frame.
#[derive(Clone, Copy, Debug, PartialEq, Eq, Structural)]
pub struct PaddleKeys {
    pub left_up: bool,
    pub left_down: bool,
    pub right_up: bool,
    pub right_down: bool,
}

/// What the ball touches or has crossed, measured on its position before it
/// moves in this frame.
#[derive(Clone, Copy, Debug, PartialEq, Eq, Structural)]
pub struct Contacts {
    /// The ball overlaps the left paddle.
    pub left_paddle: bool,
    /// The ball overlaps the right paddle.
    pub right_paddle: bool,
    /// The ball has reached the top or the bottom wall.
    pub wall: bool,
    /// The ball is at or beyond the left edge.
    pub past_left: bool,
    /// The ball is at or beyond the right edge.
    pub past_right: bool,
}

/// The answer to one frame's keys: what to show, and what to do before
/// showing it.
#[derive(Clone, Debug)]
pub struct Frame {
    /// The phase in which the frame began. It selects the screen, and a frame
    /// that began in `Playing` goes on to simulate.
    pub phase: Phase,
    /// To be carried out, in order, before anything is drawn or measured.
    pub actions: Vec<Action>,
}

} // verus!
