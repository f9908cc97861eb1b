use vstd::prelude::*;

use crate::field::{COORD_LIMIT, FIELD_WIDTH};
use crate::paddle::Paddle;

verus! {

/// The displacement the computer requests for one tick: the difference
/// between the ball's x position and the paddle's centre, saturated to -5
/// when it is below -4 and to 5 when it is above 4. Within the +-4 band the
/// paddle tracks the difference exactly; past it, the step snaps to the
/// slightly larger +-5.
pub open spec fn tracking_dx(p: Paddle, ball_x: int) -> int {
    let diff = ball_x - (p.x + p.width / 2);
    if diff < -4 {
        -5
    } else if diff > 4 {
        5
    } else {
        diff
    }
}

/// The computer-controlled paddle.
#[derive(Clone, Copy, PartialEq, Eq, Structural, Debug)]
pub struct Computer {
    pub paddle: Paddle,
}

impl Computer {
    /// Move the paddle one tick toward the ball's x position, by the
    /// saturated tracking step, then clamp once more into the field. The
    /// second clamp repeats the one inside the move, so its branches are
    /// provably never taken.
    pub fn update(&mut self, ball_x: i64)
        requires
            old(self).paddle.wf(),
            old(self).paddle.bounded(),
            -COORD_LIMIT <= ball_x <= COORD_LIMIT,
        ensures
            final(self).paddle == old(self).paddle.after_move(
                tracking_dx(old(self).paddle, ball_x as int),
                0,
            ),
            final(self).paddle.wf(),
    {
        let half_width = ((self.paddle.width as u64) / 2) as i64;
        let center = self.paddle.x + half_width;
        let mut diff = ball_x - center;
        if diff < 0 && diff < -4 {
            diff = -5;
        } else if diff > 0 && diff > 4 {
            diff = 5;
        }
        self.paddle.move_paddle(diff, 0);
        if self.paddle.x < 0 {
            self.paddle.x = 0;
        } else if self.paddle.x + self.paddle.width > FIELD_WIDTH {
            self.paddle.x = FIELD_WIDTH - self.paddle.width;
        }
    }
}

} // verus!
