use std::collections::HashMap;
use vstd::prelude::*;

use crate::paddle::Paddle;

verus! {

broadcast use vstd::std_specs::hash::group_hash_axioms;

/// The key code the host delivers for the left arrow key.
pub const KEY_LEFT: i64 = 37;

/// The key code the host delivers for the right arrow key.
pub const KEY_RIGHT: i64 = 39;

/// True when the held-key mapping records key `code` as held. A code absent
/// from the mapping counts as not held.
pub open spec fn key_held(keys: Map<i64, bool>, code: i64) -> bool {
    keys.contains_key(code) && keys[code]
}

/// The displacement the player requests for one tick: left held moves by -4,
/// else right held moves by 4, else 0. The left check comes first, so left
/// wins when both arrows are held.
pub open spec fn control_dx(left: bool, right: bool) -> int {
    if left {
        -4
    } else if right {
        4
    } else {
        0
    }
}

/// The human-controlled paddle.
#[derive(Clone, Copy, PartialEq, Eq, Structural, Debug)]
pub struct Player {
    pub paddle: Paddle,
}

impl Player {
    /// Move the paddle for one tick from the held-key mapping. Even with no
    /// relevant key held, a zero move still runs, which clamps the paddle
    /// and resets its recorded (vx, vy) to 0.
    pub fn update(&mut self, keys: &HashMap<i64, bool>)
        requires
            old(self).paddle.wf(),
            old(self).paddle.bounded(),
        ensures
            final(self).paddle == old(self).paddle.after_move(
                control_dx(key_held(keys@, KEY_LEFT), key_held(keys@, KEY_RIGHT)),
                0,
            ),
            final(self).paddle.wf(),
    {
        let left = match keys.get(&KEY_LEFT) {
            Some(held) => *held,
            None => false,
        };
        let right = match keys.get(&KEY_RIGHT) {
            Some(held) => *held,
            None => false,
        };
        if left {
            self.paddle.move_paddle(-4, 0);
        } else if right {
            self.paddle.move_paddle(4, 0);
        } else {
            self.paddle.move_paddle(0, 0);
        }
    }
}

} // verus!
