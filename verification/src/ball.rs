use vstd::prelude::*;

use crate::draw::{DrawCmd, FillColor};
use crate::field::{COORD_LIMIT, FIELD_HEIGHT, FIELD_WIDTH};
use crate::paddle::Paddle;

verus! {

/// Half of v, rounded toward zero: the share of a paddle's recorded
/// displacement that the ball inherits on a collision.
pub open spec fn half_toward_zero(v: int) -> int {
    if v >= 0 {
        v / 2
    } else {
        -((-v) / 2)
    }
}

/// The axis-aligned overlap test between the ball's bounding box, given by
/// its corners, and a paddle's rectangle.
pub open spec fn hits_paddle(top_x: int, top_y: int, bottom_x: int, bottom_y: int, p: Paddle) -> bool {
    &&& top_y < p.y + p.height
    &&& bottom_y > p.y
    &&& top_x < p.x + p.width
    &&& bottom_x > p.x
}

/// The ball: centre position (x, y) and per-tick displacement (vx, vy).
#[derive(Clone, Copy, PartialEq, Eq, Structural, Debug)]
pub struct Ball {
    pub x: i64,
    pub y: i64,
    pub vx: i64,
    pub vy: i64,
}

impl Ball {
    /// All fields within the overflow guard bound.
    pub open spec fn bounded(self) -> bool {
        &&& -COORD_LIMIT <= self.x <= COORD_LIMIT
        &&& -COORD_LIMIT <= self.y <= COORD_LIMIT
        &&& -COORD_LIMIT <= self.vx <= COORD_LIMIT
        &&& -COORD_LIMIT <= self.vy <= COORD_LIMIT
    }

    /// The serve state: the ball at the centre of the field, moving toward
    /// the computer's side. The ball is reset to it whenever it leaves the
    /// field vertically.
    pub open spec fn serve() -> Ball {
        Ball { x: 200, y: 300, vx: 0, vy: 3 }
    }

    /// The ball one tick later. In order: the position is integrated; the
    /// bounding-box corners are taken from the integrated position; the ball
    /// reflects off the side walls; leaving the field vertically resets it to
    /// the serve state; finally at most one paddle collision is tested, the
    /// half chosen by the ball's own vertical midpoint split, using the
    /// corners from before the wall and reset steps. A collision snaps vy,
    /// adds half the paddle's recorded vx, and nudges y by the new vy at
    /// once.
    pub open spec fn after_update(self, player_paddle: Paddle, computer_paddle: Paddle) -> Ball {
        let x1 = self.x + self.vx;
        let y1 = self.y + self.vy;
        let top_x = x1 - 5;
        let top_y = y1 - 5;
        let bottom_x = x1 + 5;
        let bottom_y = y1 + 5;
        let x2 = if x1 - 5 < 0 {
            5
        } else if x1 + 5 > FIELD_WIDTH {
            FIELD_WIDTH - 5
        } else {
            x1
        };
        let vx2 = if x1 - 5 < 0 || x1 + 5 > FIELD_WIDTH {
            -(self.vx as int)
        } else {
            self.vx as int
        };
        let out_of_bounds = y1 < 0 || y1 > FIELD_HEIGHT;
        let x3 = if out_of_bounds { 200 } else { x2 };
        let y3 = if out_of_bounds { 300 } else { y1 };
        let vx3 = if out_of_bounds { 0 } else { vx2 };
        let vy3 = if out_of_bounds { 3 } else { self.vy };
        if top_y > 300 {
            if hits_paddle(top_x, top_y, bottom_x, bottom_y, player_paddle) {
                Ball {
                    x: x3 as i64,
                    y: (y3 - 3) as i64,
                    vx: (vx3 + half_toward_zero(player_paddle.vx as int)) as i64,
                    vy: (-3) as i64,
                }
            } else {
                Ball { x: x3 as i64, y: y3 as i64, vx: vx3 as i64, vy: vy3 as i64 }
            }
        } else {
            if hits_paddle(top_x, top_y, bottom_x, bottom_y, computer_paddle) {
                Ball {
                    x: x3 as i64,
                    y: (y3 + 3) as i64,
                    vx: (vx3 + half_toward_zero(computer_paddle.vx as int)) as i64,
                    vy: 3,
                }
            } else {
                Ball { x: x3 as i64, y: y3 as i64, vx: vx3 as i64, vy: vy3 as i64 }
            }
        }
    }

    /// Advance the ball by one tick against the two paddles, as
    /// `after_update` describes. Afterwards the ball always lies inside the
    /// field horizontally, and vertically within a nudge of it.
    pub fn update(&mut self, player_paddle: &Paddle, computer_paddle: &Paddle)
        requires
            old(self).bounded(),
            player_paddle.bounded(),
            computer_paddle.bounded(),
        ensures
            *final(self) == old(self).after_update(*player_paddle, *computer_paddle),
            5 <= final(self).x <= FIELD_WIDTH - 5,
            -3 <= final(self).y <= FIELD_HEIGHT + 3,
            final(self).vy == old(self).vy || final(self).vy == 3 || final(self).vy == -3,
    {
        self.x = self.x + self.vx;
        self.y = self.y + self.vy;
        let top_x = self.x - 5;
        let top_y = self.y - 5;
        let bottom_x = self.x + 5;
        let bottom_y = self.y + 5;

        if self.x - 5 < 0 {
            self.x = 5;
            self.vx = -self.vx;
        } else if self.x + 5 > FIELD_WIDTH {
            self.x = FIELD_WIDTH - 5;
            self.vx = -self.vx;
        }

        if self.y < 0 || self.y > FIELD_HEIGHT {
            self.vx = 0;
            self.vy = 3;
            self.x = 200;
            self.y = 300;
        }

        if top_y > 300 {
            if top_y < player_paddle.y + player_paddle.height
                && bottom_y > player_paddle.y
                && top_x < player_paddle.x + player_paddle.width
                && bottom_x > player_paddle.x
            {
                self.vy = -3;
                self.vx = self.vx + half_of(player_paddle.vx);
                self.y = self.y + self.vy;
            }
        } else {
            if top_y < computer_paddle.y + computer_paddle.height
                && bottom_y > computer_paddle.y
                && top_x < computer_paddle.x + computer_paddle.width
                && bottom_x > computer_paddle.x
            {
                self.vy = 3;
                self.vx = self.vx + half_of(computer_paddle.vx);
                self.y = self.y + self.vy;
            }
        }
    }

    /// The drawing-surface calls that render the ball: a filled circle of
    /// radius 5 around its centre.
    pub open spec fn render_cmds(self) -> Seq<DrawCmd> {
        seq![
            DrawCmd::BeginPath,
            DrawCmd::Arc { x: self.x, y: self.y, radius: 5 },
            DrawCmd::SetFillStyle { color: FillColor::BallRed },
            DrawCmd::Fill,
        ]
    }

    /// Append the ball's drawing calls to the frame being built.
    pub fn render(&self, out: &mut Vec<DrawCmd>)
        ensures
            final(out)@ == old(out)@ + self.render_cmds(),
    {
        out.push(DrawCmd::BeginPath);
        out.push(DrawCmd::Arc { x: self.x, y: self.y, radius: 5 });
        out.push(DrawCmd::SetFillStyle { color: FillColor::BallRed });
        out.push(DrawCmd::Fill);
        proof {
            assert(out@ =~= old(out)@ + self.render_cmds());
        }
    }
}

/// Half of v, rounded toward zero.
pub fn half_of(v: i64) -> (r: i64)
    requires
        -COORD_LIMIT <= v <= COORD_LIMIT,
    ensures
        r == half_toward_zero(v as int),
{
    if v >= 0 {
        ((v as u64) / 2) as i64
    } else {
        -(((-v) as u64 / 2) as i64)
    }
}

} // verus!
