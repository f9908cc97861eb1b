use vstd::prelude::*;

use crate::ball::{half_toward_zero, hits_paddle, Ball};
use crate::computer::tracking_dx;
use crate::field::{FIELD_HEIGHT, FIELD_WIDTH};
use crate::paddle::Paddle;
use crate::player::control_dx;

verus! {

/// Clamp law: from a well-formed paddle, any move leaves the paddle inside
/// the field horizontally, and whenever the clamp fires, the recorded vx is
/// zero afterward.
pub proof fn lemma_paddle_clamp(p: Paddle, dx: int, dy: int)
    requires
        p.wf(),
    ensures
        0 <= p.after_move(dx, dy).x,
        p.after_move(dx, dy).x + p.after_move(dx, dy).width <= FIELD_WIDTH,
        p.after_move(dx, dy).wf(),
        p.x + dx < 0 || p.x + dx + p.width > FIELD_WIDTH ==> p.after_move(dx, dy).vx == 0,
{
}

/// Control priority: whenever the left arrow is held, the player's requested
/// displacement is -4, whatever the right arrow does.
pub proof fn lemma_player_priority(left: bool, right: bool)
    requires
        left,
    ensures
        control_dx(left, right) == -4,
{
}

/// Idle player: with no relevant key held, a tick leaves the paddle's
/// position unchanged and resets its recorded displacement to zero, even if
/// vx was previously nonzero.
pub proof fn lemma_player_idle(p: Paddle)
    requires
        p.wf(),
    ensures
        p.after_move(control_dx(false, false), 0).x == p.x,
        p.after_move(control_dx(false, false), 0).y == p.y,
        p.after_move(control_dx(false, false), 0).vx == 0,
        p.after_move(control_dx(false, false), 0).vy == 0,
{
}

/// Saturating tracking: within four units of the ball the computer requests
/// exactly the difference (the bound is strict, so a difference of exactly 4
/// is unsaturated); past four units it snaps to exactly five. When the
/// resulting position needs no clamp, the paddle moves by exactly that step.
pub proof fn lemma_computer_saturation(p: Paddle, ball_x: int)
    requires
        p.wf(),
    ensures
        ({
            let diff = ball_x - (p.x + p.width / 2);
            &&& -4 <= diff <= 4 ==> tracking_dx(p, ball_x) == diff
            &&& diff > 4 ==> tracking_dx(p, ball_x) == 5
            &&& diff < -4 ==> tracking_dx(p, ball_x) == -5
        }),
        0 <= p.x + tracking_dx(p, ball_x) && p.x + tracking_dx(p, ball_x) + p.width
            <= FIELD_WIDTH ==> p.after_move(tracking_dx(p, ball_x), 0).x == p.x + tracking_dx(
            p,
            ball_x,
        ),
{
}

/// Serve reset: a ball one unit past the bottom edge and not moving upward
/// comes out of one update in exactly the serve state, whatever its vx. (A
/// ball moving upward from there re-enters the field instead, and a paddle
/// reaching below the reset point could still catch the stale bounding box;
/// the two bounds rule those out.)
pub proof fn lemma_serve_reset(b: Ball, player_paddle: Paddle, computer_paddle: Paddle)
    requires
        b.bounded(),
        player_paddle.bounded(),
        computer_paddle.bounded(),
        b.y == 601,
        b.vy >= 0,
        player_paddle.y + player_paddle.height <= 596,
    ensures
        b.after_update(player_paddle, computer_paddle) == Ball::serve(),
{
}

/// Momentum transfer on the player's side: when the moved ball's bounding
/// box overlaps the player paddle in the lower half of the field, and
/// neither a wall nor the serve reset fires that tick, the ball leaves with
/// vy snapped to -3, half the paddle's recorded vx added to its own, and its
/// y nudged by the new vy at once.
pub proof fn lemma_player_collision(b: Ball, player_paddle: Paddle, computer_paddle: Paddle)
    requires
        b.bounded(),
        player_paddle.bounded(),
        computer_paddle.bounded(),
        0 <= b.x + b.vx - 5,
        b.x + b.vx + 5 <= FIELD_WIDTH,
        0 <= b.y + b.vy <= FIELD_HEIGHT,
        b.y + b.vy - 5 > 300,
        hits_paddle(b.x + b.vx - 5, b.y + b.vy - 5, b.x + b.vx + 5, b.y + b.vy + 5, player_paddle),
    ensures
        b.after_update(player_paddle, computer_paddle).vy == -3,
        b.after_update(player_paddle, computer_paddle).vx == b.vx + half_toward_zero(
            player_paddle.vx as int,
        ),
        b.after_update(player_paddle, computer_paddle).y == b.y + b.vy - 3,
        b.after_update(player_paddle, computer_paddle).x == b.x + b.vx,
{
}

/// Momentum transfer on the computer's side, symmetric to the player's: vy
/// snaps to 3 and the nudge moves the ball downward.
pub proof fn lemma_computer_collision(b: Ball, player_paddle: Paddle, computer_paddle: Paddle)
    requires
        b.bounded(),
        player_paddle.bounded(),
        computer_paddle.bounded(),
        0 <= b.x + b.vx - 5,
        b.x + b.vx + 5 <= FIELD_WIDTH,
        0 <= b.y + b.vy <= FIELD_HEIGHT,
        b.y + b.vy - 5 <= 300,
        hits_paddle(
            b.x + b.vx - 5,
            b.y + b.vy - 5,
            b.x + b.vx + 5,
            b.y + b.vy + 5,
            computer_paddle,
        ),
    ensures
        b.after_update(player_paddle, computer_paddle).vy == 3,
        b.after_update(player_paddle, computer_paddle).vx == b.vx + half_toward_zero(
            computer_paddle.vx as int,
        ),
        b.after_update(player_paddle, computer_paddle).y == b.y + b.vy + 3,
        b.after_update(player_paddle, computer_paddle).x == b.x + b.vx,
{
}

} // verus!
