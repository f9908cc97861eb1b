use vstd::prelude::*;

use crate::draw::{DrawCmd, FillColor};
use crate::field::{COORD_LIMIT, FIELD_WIDTH};

verus! {

/// A paddle: a rectangle with top-left corner (x, y) and fixed size, together
/// with the displacement (vx, vy) applied by its last move. The recorded vx
/// is what the ball inherits half of on a collision.
#[derive(Clone, Copy, PartialEq, Eq, Structural, Debug)]
pub struct Paddle {
    pub x: i64,
    pub y: i64,
    pub width: i64,
    pub height: i64,
    pub vx: i64,
    pub vy: i64,
}

impl Paddle {
    /// The paddle's invariant: it lies inside the field horizontally and has
    /// positive width.
    pub open spec fn wf(self) -> bool {
        &&& 0 <= self.x
        &&& self.x + self.width <= FIELD_WIDTH
        &&& 0 < self.width
    }

    /// All fields within the overflow guard bound.
    pub open spec fn bounded(self) -> bool {
        &&& -COORD_LIMIT <= self.x <= COORD_LIMIT
        &&& -COORD_LIMIT <= self.y <= COORD_LIMIT
        &&& 0 <= self.width <= COORD_LIMIT
        &&& 0 <= self.height <= COORD_LIMIT
        &&& -COORD_LIMIT <= self.vx <= COORD_LIMIT
        &&& -COORD_LIMIT <= self.vy <= COORD_LIMIT
    }

    /// The paddle after a move by (dx, dy): the position is shifted, the
    /// requested displacement is recorded in (vx, vy), and then x is clamped
    /// to the field; a clamp also zeroes vx. There is no vertical clamp.
    pub open spec fn after_move(self, dx: int, dy: int) -> Paddle {
        let sx = self.x + dx;
        let cx = if sx < 0 {
            0
        } else if sx + self.width > FIELD_WIDTH {
            FIELD_WIDTH - self.width
        } else {
            sx
        };
        let cvx = if sx < 0 {
            0
        } else if sx + self.width > FIELD_WIDTH {
            0
        } else {
            dx
        };
        Paddle {
            x: cx as i64,
            y: (self.y + dy) as i64,
            width: self.width,
            height: self.height,
            vx: cvx as i64,
            vy: dy as i64,
        }
    }

    /// Displace the paddle by (dx, dy), record the requested displacement in
    /// (vx, vy), then clamp x to the field, zeroing vx when the clamp fires.
    pub fn move_paddle(&mut self, dx: i64, dy: i64)
        requires
            old(self).wf(),
            old(self).bounded(),
            -COORD_LIMIT <= dx <= COORD_LIMIT,
            -COORD_LIMIT <= dy <= COORD_LIMIT,
        ensures
            *final(self) == old(self).after_move(dx as int, dy as int),
            final(self).wf(),
    {
        self.x = self.x + dx;
        self.y = self.y + dy;
        self.vx = dx;
        self.vy = dy;
        if self.x < 0 {
            self.x = 0;
            self.vx = 0;
        } else if self.x + self.width > FIELD_WIDTH {
            self.x = FIELD_WIDTH - self.width;
            self.vx = 0;
        }
    }

    /// The drawing-surface calls that render this paddle.
    pub open spec fn render_cmds(self) -> Seq<DrawCmd> {
        seq![
            DrawCmd::SetFillStyle { color: FillColor::PaddleBlue },
            DrawCmd::FillRect { x: self.x, y: self.y, width: self.width, height: self.height },
        ]
    }

    /// Append this paddle's drawing calls to the frame being built.
    pub fn render(&self, out: &mut Vec<DrawCmd>)
        ensures
            final(out)@ == old(out)@ + self.render_cmds(),
    {
        out.push(DrawCmd::SetFillStyle { color: FillColor::PaddleBlue });
        out.push(DrawCmd::FillRect {
            x: self.x,
            y: self.y,
            width: self.width,
            height: self.height,
        });
        proof {
            assert(out@ =~= old(out)@ + self.render_cmds());
        }
    }
}

} // verus!
