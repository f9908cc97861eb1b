use std::collections::HashMap;
use vstd::prelude::*;

use crate::ball::Ball;
use crate::computer::{tracking_dx, Computer};
use crate::draw::DrawCmd;
use crate::field::{COORD_LIMIT, FIELD_HEIGHT, FIELD_WIDTH};
use crate::paddle::Paddle;
use crate::player::{control_dx, key_held, Player, KEY_LEFT, KEY_RIGHT};

verus! {

broadcast use vstd::std_specs::hash::group_hash_axioms;

/// One event delivered by the host: the next animation frame, or a key going
/// down or up with its key code.
#[derive(Clone, Copy, PartialEq, Eq, Structural, Debug)]
pub enum GameEvent {
    AnimationFrame,
    KeyDown { code: i64 },
    KeyUp { code: i64 },
}

/// The whole game: the two paddles, the ball, and the mapping from key code
/// to whether that key is currently held. A key-up only flips the flag to
/// false; it never removes the entry.
pub struct GameState {
    pub keys: HashMap<i64, bool>,
    pub player: Player,
    pub computer: Computer,
    pub ball: Ball,
}

/// The player paddle's starting place: centred at the bottom of the field.
pub open spec fn initial_player_paddle() -> Paddle {
    Paddle { x: 175, y: 580, width: 50, height: 10, vx: 0, vy: 0 }
}

/// The computer paddle's starting place: centred at the top of the field.
pub open spec fn initial_computer_paddle() -> Paddle {
    Paddle { x: 175, y: 10, width: 50, height: 10, vx: 0, vy: 0 }
}

impl GameState {
    /// The game's invariant: both paddles sit inside the field, and every
    /// coordinate is within the overflow guard bound.
    pub open spec fn wf(self) -> bool {
        &&& self.player.paddle.wf()
        &&& self.player.paddle.bounded()
        &&& self.computer.paddle.wf()
        &&& self.computer.paddle.bounded()
        &&& self.ball.bounded()
    }

    /// The state one tick later. The entities step in fixed order: the
    /// player from the held keys, then the computer toward the ball's
    /// current x, then the ball against both paddles as already moved this
    /// tick. The held-key mapping is unchanged.
    pub open spec fn after_tick(self) -> GameState {
        let moved_player = self.player.paddle.after_move(
            control_dx(key_held(self.keys@, KEY_LEFT), key_held(self.keys@, KEY_RIGHT)),
            0,
        );
        let moved_computer = self.computer.paddle.after_move(
            tracking_dx(self.computer.paddle, self.ball.x as int),
            0,
        );
        GameState {
            keys: self.keys,
            player: Player { paddle: moved_player },
            computer: Computer { paddle: moved_computer },
            ball: self.ball.after_update(moved_player, moved_computer),
        }
    }

    /// The drawing calls of one frame: clear the field, then the player
    /// paddle, the computer paddle and the ball, in that fixed order.
    pub open spec fn frame_cmds(self) -> Seq<DrawCmd> {
        seq![DrawCmd::ClearRect { x: 0, y: 0, width: FIELD_WIDTH, height: FIELD_HEIGHT }]
            + self.player.paddle.render_cmds() + self.computer.paddle.render_cmds()
            + self.ball.render_cmds()
    }

    /// The game as it starts: paddles in their starting places, the ball in
    /// the serve state, no key held.
    pub fn new() -> (game: GameState)
        ensures
            game.keys@ == Map::<i64, bool>::empty(),
            game.player.paddle == initial_player_paddle(),
            game.computer.paddle == initial_computer_paddle(),
            game.ball == Ball::serve(),
            game.wf(),
    {
        GameState {
            keys: HashMap::new(),
            player: Player {
                paddle: Paddle { x: 175, y: 580, width: 50, height: 10, vx: 0, vy: 0 },
            },
            computer: Computer {
                paddle: Paddle { x: 175, y: 10, width: 50, height: 10, vx: 0, vy: 0 },
            },
            ball: Ball { x: 200, y: 300, vx: 0, vy: 3 },
        }
    }

    /// Whether the game's invariant holds, decided at run time.
    pub fn is_well_formed(&self) -> (well_formed: bool)
        ensures
            well_formed == self.wf(),
    {
        let p = &self.player.paddle;
        let c = &self.computer.paddle;
        let b = &self.ball;
        -COORD_LIMIT <= p.x && p.x <= COORD_LIMIT
            && -COORD_LIMIT <= p.y && p.y <= COORD_LIMIT
            && 0 <= p.width && p.width <= COORD_LIMIT
            && 0 <= p.height && p.height <= COORD_LIMIT
            && -COORD_LIMIT <= p.vx && p.vx <= COORD_LIMIT
            && -COORD_LIMIT <= p.vy && p.vy <= COORD_LIMIT
            && 0 <= p.x && p.x + p.width <= FIELD_WIDTH && 0 < p.width
            && -COORD_LIMIT <= c.x && c.x <= COORD_LIMIT
            && -COORD_LIMIT <= c.y && c.y <= COORD_LIMIT
            && 0 <= c.width && c.width <= COORD_LIMIT
            && 0 <= c.height && c.height <= COORD_LIMIT
            && -COORD_LIMIT <= c.vx && c.vx <= COORD_LIMIT
            && -COORD_LIMIT <= c.vy && c.vy <= COORD_LIMIT
            && 0 <= c.x && c.x + c.width <= FIELD_WIDTH && 0 < c.width
            && -COORD_LIMIT <= b.x && b.x <= COORD_LIMIT
            && -COORD_LIMIT <= b.y && b.y <= COORD_LIMIT
            && -COORD_LIMIT <= b.vx && b.vx <= COORD_LIMIT
            && -COORD_LIMIT <= b.vy && b.vy <= COORD_LIMIT
    }

    /// Step every entity one tick, in fixed order.
    fn update(&mut self)
        requires
            old(self).wf(),
        ensures
            *final(self) == old(self).after_tick(),
            -COORD_LIMIT + 2 <= old(self).ball.vx <= COORD_LIMIT - 2 ==> final(self).wf(),
    {
        self.player.update(&self.keys);
        let ball_x = self.ball.x;
        self.computer.update(ball_x);
        self.ball.update(&self.player.paddle, &self.computer.paddle);
    }

    /// Append the frame-clearing call to the frame being built.
    pub fn clear(&self, out: &mut Vec<DrawCmd>)
        ensures
            final(out)@ == old(out)@ + seq![
                DrawCmd::ClearRect { x: 0, y: 0, width: FIELD_WIDTH, height: FIELD_HEIGHT },
            ],
    {
        out.push(DrawCmd::ClearRect { x: 0, y: 0, width: FIELD_WIDTH, height: FIELD_HEIGHT });
        proof {
            assert(out@ =~= old(out)@ + seq![
                DrawCmd::ClearRect { x: 0, y: 0, width: FIELD_WIDTH, height: FIELD_HEIGHT },
            ]);
        }
    }

    /// Append the drawing calls of every entity, in fixed order.
    fn render(&self, out: &mut Vec<DrawCmd>)
        ensures
            final(out)@ == old(out)@ + self.player.paddle.render_cmds()
                + self.computer.paddle.render_cmds() + self.ball.render_cmds(),
    {
        self.player.paddle.render(out);
        self.computer.paddle.render(out);
        self.ball.render(out);
    }

    /// One tick: clear the frame, step every entity, render every entity,
    /// and hand back the frame's drawing calls in their fixed order.
    pub fn run(&mut self) -> (cmds: Vec<DrawCmd>)
        requires
            old(self).wf(),
        ensures
            *final(self) == old(self).after_tick(),
            cmds@ == old(self).after_tick().frame_cmds(),
            -COORD_LIMIT + 2 <= old(self).ball.vx <= COORD_LIMIT - 2 ==> final(self).wf(),
    {
        let mut cmds: Vec<DrawCmd> = Vec::new();
        self.clear(&mut cmds);
        self.update();
        self.render(&mut cmds);
        proof {
            assert(cmds@ =~= old(self).after_tick().frame_cmds());
        }
        cmds
    }

    /// React to one host event: an animation frame runs a tick and returns
    /// its drawing calls; a key event records the key's new held state and
    /// draws nothing.
    pub fn route_event(&mut self, event: GameEvent) -> (cmds: Vec<DrawCmd>)
        requires
            old(self).wf(),
        ensures
            match event {
                GameEvent::AnimationFrame => {
                    &&& *final(self) == old(self).after_tick()
                    &&& cmds@ == old(self).after_tick().frame_cmds()
                },
                GameEvent::KeyDown { code } => {
                    &&& final(self).keys@ == old(self).keys@.insert(code, true)
                    &&& final(self).player == old(self).player
                    &&& final(self).computer == old(self).computer
                    &&& final(self).ball == old(self).ball
                    &&& cmds@ == Seq::<DrawCmd>::empty()
                },
                GameEvent::KeyUp { code } => {
                    &&& final(self).keys@ == old(self).keys@.insert(code, false)
                    &&& final(self).player == old(self).player
                    &&& final(self).computer == old(self).computer
                    &&& final(self).ball == old(self).ball
                    &&& cmds@ == Seq::<DrawCmd>::empty()
                },
            },
            -COORD_LIMIT + 2 <= old(self).ball.vx <= COORD_LIMIT - 2 ==> final(self).wf(),
    {
        match event {
            GameEvent::AnimationFrame => self.run(),
            GameEvent::KeyDown { code } => {
                self.keys.insert(code, true);
                Vec::new()
            },
            GameEvent::KeyUp { code } => {
                self.keys.insert(code, false);
                Vec::new()
            },
        }
    }
}

} // verus!
