//! What follows from the transitions, stated once and proved.

use vstd::prelude::*;
use crate::action::{Action, Contacts, Direction, Keys, PaddleKeys, Phase, Side, SpeedTier};
use crate::model::{
    GameView, bounce_plan, held, left_player, nudge_plan, paddle_plan, plan_if, right_player,
};
use crate::window::Window;

verus! {

/// The grid of any viewport agrees with the size it was derived from. A
/// viewport of non-negative size is cut into slices of a twelfth of its
/// width and height, rounded down, and its centre lies six slices from the
/// origin along each axis, inside the viewport.
pub proof fn lemma_grid(width: i32, height: i32)
    ensures
        Window::of_size(width, height).wf(),
        Window::of_size(width, height).width == width,
        Window::of_size(width, height).height == height,
        width >= 0 ==> {
            &&& Window::of_size(width, height).width_slice == width / 12
            &&& Window::of_size(width, height).center.x == (width / 12) * 6
            &&& 0 <= (width / 12) * 6 <= width
        },
        height >= 0 ==> {
            &&& Window::of_size(width, height).height_slice == height / 12
            &&& Window::of_size(width, height).center.y == (height / 12) * 6
            &&& 0 <= (height / 12) * 6 <= height
        },
{
}

/// The middle of a viewport lies at or beyond its right edge only if the
/// viewport has no width.
pub proof fn lemma_middle_inside(width: i32, height: i32)
    ensures
        Window::of_size(width, height).center.x >= width <==> width <= 0,
{
}

/// A paddle is asked to move in a direction exactly when the key for that
/// paddle and direction is held, and the paddles' plan asks for nothing else.
pub proof fn lemma_paddles_follow_keys(keys: PaddleKeys, paddle: Side, direction: Direction)
    ensures
        paddle_plan(keys).contains(Action::Nudge { paddle, direction }) <==> held(
            keys,
            paddle,
            direction,
        ),
        forall|i: int| 0 <= i < paddle_plan(keys).len() ==> paddle_plan(keys)[i] is Nudge,
        paddle_plan(keys).len() <= 4,
{
    let plan = paddle_plan(keys);
    let nudge = Action::Nudge { paddle, direction };
    let a = plan_if(keys.left_up, nudge_plan(Side::Left, Direction::Up));
    let b = plan_if(keys.left_down, nudge_plan(Side::Left, Direction::Down));
    let c = plan_if(keys.right_up, nudge_plan(Side::Right, Direction::Up));
    let d = plan_if(keys.right_down, nudge_plan(Side::Right, Direction::Down));
    assert(plan == a + b + c + d);
    if held(keys, paddle, direction) {
        let at = match (paddle, direction) {
            (Side::Left, Direction::Up) => 0,
            (Side::Left, Direction::Down) => a.len() as int,
            (Side::Right, Direction::Up) => (a + b).len() as int,
            (Side::Right, Direction::Down) => (a + b + c).len() as int,
        };
        assert(plan[at] == nudge);
    } else {
        assert forall|i: int| 0 <= i < plan.len() implies plan[i] != nudge by {}
    }
}

/// A ball at or beyond the left edge gives the right player exactly one
/// point, and the ball goes back to the middle of the viewport at its
/// initial speed. The left player's score moves only if the ball, back in
/// the middle, is then at or beyond the right edge as well.
pub proof fn lemma_point_for_right(g: GameView, contacts: Contacts)
    requires
        contacts.past_left,
    ensures
        g.after_ball(contacts).right_score == g.right_score + 1,
        g.after_ball(contacts).ball_speed == SpeedTier::Init,
        g.ball_plan(contacts).contains(Action::PlaceBall { at: g.window.center }),
        g.window.wf() && g.window.width > 0 ==> g.after_ball(contacts).left_score
            == g.left_score,
        g.window.wf() && g.window.width <= 0 ==> g.after_ball(contacts).left_score
            == g.left_score + 1,
{
    lemma_plan_recenters(g, contacts);
}

/// A ball at or beyond the right edge, and not beyond the left one, gives
/// the left player exactly one point, and the ball goes back to the middle
/// of the viewport at its initial speed. The right player's score stays.
pub proof fn lemma_point_for_left(g: GameView, contacts: Contacts)
    requires
        contacts.past_right,
        !contacts.past_left,
    ensures
        g.after_ball(contacts).left_score == g.left_score + 1,
        g.after_ball(contacts).right_score == g.right_score,
        g.after_ball(contacts).ball_speed == SpeedTier::Init,
        g.ball_plan(contacts).contains(Action::PlaceBall { at: g.window.center }),
{
    lemma_plan_recenters(g, contacts);
}

/// While the ball stays inside the court the score stands, and the plan
/// moves the ball nowhere but along its velocity.
pub proof fn lemma_no_point(g: GameView, contacts: Contacts)
    requires
        !contacts.past_left,
        !contacts.past_right,
    ensures
        g.after_ball(contacts).left_score == g.left_score,
        g.after_ball(contacts).right_score == g.right_score,
        !g.ball_plan(contacts).contains(Action::PlaceBall { at: g.window.center }),
        g.ball_plan(contacts).last() == Action::Advance,
{
    let plan = g.ball_plan(contacts);
    let place = Action::PlaceBall { at: g.window.center };
    assert forall|i: int| 0 <= i < plan.len() implies plan[i] != place by {}
}

/// With nothing touched and nothing crossed, the ball only advances.
pub proof fn lemma_free_flight(g: GameView, contacts: Contacts)
    requires
        !contacts.left_paddle,
        !contacts.right_paddle,
        !contacts.wall,
        !contacts.past_left,
        !contacts.past_right,
    ensures
        g.ball_plan(contacts) == seq![Action::Advance],
        g.after_ball(contacts) == g,
{
    assert(g.ball_plan(contacts) =~= seq![Action::Advance]);
}

/// Whenever a point is scored, the plan puts the ball in the middle.
proof fn lemma_plan_recenters(g: GameView, contacts: Contacts)
    requires
        contacts.past_left || g.crosses_right(contacts),
    ensures
        g.ball_plan(contacts).contains(Action::PlaceBall { at: g.window.center }),
{
    let bounces = plan_if(contacts.left_paddle, bounce_plan(Action::FlipHorizontal)) + plan_if(
        contacts.right_paddle,
        bounce_plan(Action::FlipHorizontal),
    ) + plan_if(contacts.wall, bounce_plan(Action::FlipVertical));
    let plan = g.ball_plan(contacts);
    assert(plan[bounces.len() as int] == Action::PlaceBall { at: g.window.center });
}

/// A round in which the left player stands at the winning score ends with
/// the frame's simulation, and the left player is named the winner,
/// whatever the ball does in that frame.
pub proof fn lemma_left_wins(g: GameView, contacts: Contacts)
    requires
        g.phase() == Phase::Playing,
        g.left_score >= g.win_score,
    ensures
        g.simulated(contacts).phase() == Phase::Ended,
        g.simulated(contacts).winner == left_player(),
{
}

/// A round in which the right player stands at the winning score ends with
/// the frame's simulation, and the right player is named the winner, unless
/// the left player is at the winning score by the end of the same frame too.
pub proof fn lemma_right_wins(g: GameView, contacts: Contacts)
    requires
        g.phase() == Phase::Playing,
        g.right_score >= g.win_score,
        g.after_ball(contacts).left_score < g.win_score,
    ensures
        g.simulated(contacts).phase() == Phase::Ended,
        g.simulated(contacts).winner == right_player(),
{
}

/// A frame that begins in a round with a side at the winning score, and in
/// which the reset key is not pressed, leaves the game ended with that side
/// as the winner: the left side in any case, the right side unless the left
/// one is at the winning score by the end of the frame too.
pub proof fn lemma_frame_decides(
    g: GameView,
    width: i32,
    height: i32,
    keys: Keys,
    contacts: Contacts,
)
    requires
        g.phase() == Phase::Playing,
        !keys.reset,
    ensures
        g.left_score >= g.win_score ==> {
            &&& g.after_frame(width, height, keys, contacts).phase() == Phase::Ended
            &&& g.after_frame(width, height, keys, contacts).winner == left_player()
        },
        g.right_score >= g.win_score && g.after_frame(width, height, keys, contacts).left_score
            < g.win_score ==> {
            &&& g.after_frame(width, height, keys, contacts).phase() == Phase::Ended
            &&& g.after_frame(width, height, keys, contacts).winner == right_player()
        },
{
}

/// The game ends in the very frame in which a score reaches the winning
/// score, and in no frame before.
pub proof fn lemma_ends_when_reached(g: GameView, contacts: Contacts)
    requires
        g.phase() == Phase::Playing,
    ensures
        g.simulated(contacts).is_ended <==> g.after_ball(contacts).left_score >= g.win_score
            || g.after_ball(contacts).right_score >= g.win_score,
{
}

/// A reset leads to the title screen with nothing scored and no winner,
/// whatever the state before it.
pub proof fn lemma_reset_clears(g: GameView)
    ensures
        g.reset().phase() == Phase::NotStarted,
        g.reset().left_score == 0,
        g.reset().right_score == 0,
        g.reset().winner == Seq::<char>::empty(),
        g.reset().reset() == g.reset(),
{
}

/// The restart key on the result screen resets the game, and so does the
/// reset key during a round when the frame's keys are dealt with.
pub proof fn lemma_restart_clears(g: GameView, width: i32, height: i32, keys: Keys)
    requires
        g.resets_on(keys),
    ensures
        g.updated(width, height, keys).phase() == Phase::NotStarted,
        g.updated(width, height, keys).left_score == 0,
        g.updated(width, height, keys).right_score == 0,
        g.updated(width, height, keys).winner == Seq::<char>::empty(),
{
}

/// The phases follow one another in a fixed order: the title screen leads
/// only to a round, and that on a key press; a round leads back to the title
/// screen on a reset; the result screen leads only back to the title screen,
/// and that on a restart.
pub proof fn lemma_phase_order(g: GameView, width: i32, height: i32, keys: Keys)
    ensures
        g.updated(width, height, keys).phase() == match g.phase() {
            Phase::NotStarted => if keys.any_pressed {
                Phase::Playing
            } else {
                Phase::NotStarted
            },
            Phase::Playing => if keys.reset {
                Phase::NotStarted
            } else {
                Phase::Playing
            },
            Phase::Ended => if keys.restart {
                Phase::NotStarted
            } else {
                Phase::Ended
            },
        },
{
}

/// Outside a reset the keys leave the score, the winner and the ball's
/// speed alone.
pub proof fn lemma_keys_keep_score(g: GameView, width: i32, height: i32, keys: Keys)
    requires
        !g.resets_on(keys),
    ensures
        g.updated(width, height, keys).left_score == g.left_score,
        g.updated(width, height, keys).right_score == g.right_score,
        g.updated(width, height, keys).winner == g.winner,
        g.updated(width, height, keys).ball_speed == g.ball_speed,
        g.updated(width, height, keys).is_ended == g.is_ended,
{
}

/// Every transition keeps a well-formed state well-formed, and the ball's
/// part of a frame leaves it consistent until the verdict.
pub proof fn lemma_wf_kept(g: GameView, width: i32, height: i32, keys: Keys, contacts: Contacts)
    requires
        g.wf(),
    ensures
        g.started().wf(),
        g.reset().wf(),
        g.resized(width, height).wf(),
        g.updated(width, height, keys).wf(),
        !g.is_ended ==> g.after_ball(contacts).consistent(),
        !g.is_ended ==> g.simulated(contacts).wf(),
        g.after_frame(width, height, keys, contacts).wf(),
{
}

/// The verdict makes a consistent state well-formed, and leaves a
/// well-formed state as it is.
pub proof fn lemma_verdict(g: GameView)
    requires
        g.consistent(),
    ensures
        g.judged().wf(),
        g.wf() ==> g.judged() == g,
{
}

/// In a well-formed state the game has ended exactly when a score stands at
/// the winning score, and no score ever lies beyond it.
pub proof fn lemma_ended_iff_reached(g: GameView)
    requires
        g.wf(),
    ensures
        g.is_ended <==> g.left_score == g.win_score || g.right_score == g.win_score,
        g.left_score <= g.win_score,
        g.right_score <= g.win_score,
        g.is_ended ==> (g.winner == left_player() <== g.left_score == g.win_score),
{
}

} // verus!
