use std::collections::HashMap;

use pong::ball::Ball;
use pong::computer::Computer;
use pong::draw::{DrawCmd, FillColor};
use pong::game::{GameEvent, GameState};
use pong::paddle::Paddle;
use pong::player::Player;

fn paddle(x: i64, y: i64, vx: i64) -> Paddle {
    Paddle { x, y, width: 50, height: 10, vx, vy: 0 }
}

fn player_paddle() -> Paddle {
    paddle(175, 580, 0)
}

fn computer_paddle() -> Paddle {
    paddle(175, 10, 0)
}

#[test]
fn paddle_clamp_left_edge() {
    let mut p = paddle(2, 580, 0);
    p.move_paddle(-4, 0);
    assert_eq!(p.x, 0);
    assert_eq!(p.vx, 0);
    assert_eq!(p.vy, 0);
}

#[test]
fn paddle_clamp_right_edge() {
    let mut p = paddle(340, 580, 0);
    p.move_paddle(20, 0);
    assert_eq!(p.x, 350);
    assert_eq!(p.vx, 0);
}

#[test]
fn paddle_move_within_field() {
    let mut p = paddle(100, 580, 0);
    p.move_paddle(4, 0);
    assert_eq!(p.x, 104);
    assert_eq!(p.vx, 4);
    assert_eq!(p.y, 580);
}

#[test]
fn paddle_stays_in_field_over_any_sequence() {
    let moves: Vec<i64> = vec![-400, 9, 300, 300, -3, -1000, 7, 0, 500];
    let mut p = paddle(175, 580, 0);
    for dx in moves {
        p.move_paddle(dx, 0);
        assert!(0 <= p.x && p.x <= 400 - p.width);
    }
}

#[test]
fn paddle_vertical_move_is_unclamped() {
    let mut p = paddle(100, 580, 0);
    p.move_paddle(0, 5);
    assert_eq!(p.y, 585);
    assert_eq!(p.vy, 5);
    assert_eq!(p.x, 100);
}

#[test]
fn player_left_takes_priority_over_right() {
    let mut keys: HashMap<i64, bool> = HashMap::new();
    keys.insert(37, true);
    keys.insert(39, true);
    let mut player = Player { paddle: player_paddle() };
    player.update(&keys);
    assert_eq!(player.paddle.x, 171);
    assert_eq!(player.paddle.vx, -4);
}

#[test]
fn player_moves_right() {
    let mut keys: HashMap<i64, bool> = HashMap::new();
    keys.insert(39, true);
    let mut player = Player { paddle: player_paddle() };
    player.update(&keys);
    assert_eq!(player.paddle.x, 179);
    assert_eq!(player.paddle.vx, 4);
}

#[test]
fn player_idle_keeps_position_and_resets_vx() {
    let keys: HashMap<i64, bool> = HashMap::new();
    let mut player = Player { paddle: paddle(120, 580, 4) };
    player.update(&keys);
    assert_eq!(player.paddle.x, 120);
    assert_eq!(player.paddle.vx, 0);
    assert_eq!(player.paddle.vy, 0);
}

#[test]
fn player_released_key_counts_as_not_held() {
    let mut keys: HashMap<i64, bool> = HashMap::new();
    keys.insert(37, false);
    let mut player = Player { paddle: player_paddle() };
    player.update(&keys);
    assert_eq!(player.paddle.x, 175);
    assert_eq!(player.paddle.vx, 0);
}

#[test]
fn computer_saturates_to_five_past_four() {
    // Paddle centre at 200; a ball 10 to the right moves the paddle by
    // exactly 5, not 10.
    let mut computer = Computer { paddle: computer_paddle() };
    computer.update(210);
    assert_eq!(computer.paddle.x, 180);
    assert_eq!(computer.paddle.vx, 5);
}

#[test]
fn computer_difference_of_four_is_unsaturated() {
    let mut computer = Computer { paddle: computer_paddle() };
    computer.update(204);
    assert_eq!(computer.paddle.x, 179);
    assert_eq!(computer.paddle.vx, 4);
}

#[test]
fn computer_saturates_to_minus_five() {
    let mut computer = Computer { paddle: computer_paddle() };
    computer.update(190);
    assert_eq!(computer.paddle.x, 170);
    assert_eq!(computer.paddle.vx, -5);
}

#[test]
fn computer_tracks_small_difference_exactly() {
    let mut computer = Computer { paddle: computer_paddle() };
    computer.update(198);
    assert_eq!(computer.paddle.x, 173);
    assert_eq!(computer.paddle.vx, -2);
}

#[test]
fn ball_bounces_off_right_wall() {
    let mut b = Ball { x: 396, y: 300, vx: 2, vy: 3 };
    b.update(&player_paddle(), &computer_paddle());
    assert_eq!(b.x, 395);
    assert_eq!(b.vx, -2);
    assert_eq!(b.y, 303);
    assert_eq!(b.vy, 3);
}

#[test]
fn ball_bounces_off_left_wall() {
    let mut b = Ball { x: 4, y: 300, vx: -2, vy: 3 };
    b.update(&player_paddle(), &computer_paddle());
    assert_eq!(b.x, 5);
    assert_eq!(b.vx, 2);
}

#[test]
fn ball_resets_to_serve_below_field() {
    let mut b = Ball { x: 47, y: 601, vx: -9, vy: 3 };
    b.update(&player_paddle(), &computer_paddle());
    assert_eq!(b, Ball { x: 200, y: 300, vx: 0, vy: 3 });
}

#[test]
fn ball_resets_to_serve_above_field() {
    let mut b = Ball { x: 380, y: -1, vx: 7, vy: -3 };
    b.update(&player_paddle(), &computer_paddle());
    assert_eq!(b, Ball { x: 200, y: 300, vx: 0, vy: 3 });
}

#[test]
fn ball_takes_half_player_momentum() {
    // The paddle's recorded vx is 4; the collision snaps vy to -3, adds 2 to
    // vx, and nudges y by -3 in the same tick.
    let mut b = Ball { x: 200, y: 578, vx: 0, vy: 3 };
    b.update(&paddle(175, 580, 4), &computer_paddle());
    assert_eq!(b.vy, -3);
    assert_eq!(b.vx, 2);
    assert_eq!(b.y, 578);
    assert_eq!(b.x, 200);
}

#[test]
fn ball_halves_odd_momentum_toward_zero() {
    let mut b = Ball { x: 200, y: 578, vx: 0, vy: 3 };
    b.update(&paddle(175, 580, 3), &computer_paddle());
    assert_eq!(b.vx, 1);
    let mut c = Ball { x: 200, y: 578, vx: 0, vy: 3 };
    c.update(&paddle(175, 580, -3), &computer_paddle());
    assert_eq!(c.vx, -1);
}

#[test]
fn ball_bounces_off_computer_paddle() {
    let mut b = Ball { x: 200, y: 22, vx: 0, vy: -3 };
    b.update(&player_paddle(), &paddle(175, 10, -5));
    assert_eq!(b.vy, 3);
    assert_eq!(b.vx, -2);
    assert_eq!(b.y, 22);
}

#[test]
fn run_tick_from_start() {
    // One tick from the starting state with no key held: the ball drifts to
    // (200, 303), both paddles stay put with their displacement reset, and
    // the frame's drawing calls come out in the fixed order.
    let mut g = GameState::new();
    let cmds = g.run();
    assert_eq!(g.ball, Ball { x: 200, y: 303, vx: 0, vy: 3 });
    assert_eq!(g.player.paddle, player_paddle());
    assert_eq!(g.computer.paddle, computer_paddle());
    let expected = vec![
        DrawCmd::ClearRect { x: 0, y: 0, width: 400, height: 600 },
        DrawCmd::SetFillStyle { color: FillColor::PaddleBlue },
        DrawCmd::FillRect { x: 175, y: 580, width: 50, height: 10 },
        DrawCmd::SetFillStyle { color: FillColor::PaddleBlue },
        DrawCmd::FillRect { x: 175, y: 10, width: 50, height: 10 },
        DrawCmd::BeginPath,
        DrawCmd::Arc { x: 200, y: 303, radius: 5 },
        DrawCmd::SetFillStyle { color: FillColor::BallRed },
        DrawCmd::Fill,
    ];
    assert_eq!(cmds, expected);
}

#[test]
fn new_game_starts_at_serve() {
    let g = GameState::new();
    assert_eq!(g.ball, Ball { x: 200, y: 300, vx: 0, vy: 3 });
    assert_eq!(g.player.paddle, player_paddle());
    assert_eq!(g.computer.paddle, computer_paddle());
    assert!(g.is_well_formed());
}

#[test]
fn key_events_drive_the_player() {
    let mut g = GameState::new();
    let none = g.route_event(GameEvent::KeyDown { code: 37 });
    assert!(none.is_empty());
    g.route_event(GameEvent::AnimationFrame);
    assert_eq!(g.player.paddle.x, 171);
    assert_eq!(g.player.paddle.vx, -4);
    g.route_event(GameEvent::KeyUp { code: 37 });
    g.route_event(GameEvent::AnimationFrame);
    assert_eq!(g.player.paddle.x, 171);
    assert_eq!(g.player.paddle.vx, 0);
}

#[test]
fn unrelated_keys_leave_the_player_alone() {
    let mut g = GameState::new();
    g.route_event(GameEvent::KeyDown { code: 65 });
    g.route_event(GameEvent::AnimationFrame);
    assert_eq!(g.player.paddle.x, 175);
}

#[test]
fn clear_emits_one_clearing_call() {
    let g = GameState::new();
    let mut cmds: Vec<DrawCmd> = Vec::new();
    g.clear(&mut cmds);
    assert_eq!(cmds, vec![DrawCmd::ClearRect { x: 0, y: 0, width: 400, height: 600 }]);
}

#[test]
fn computer_follows_the_ball_over_a_tick() {
    // The computer reads the ball's x before the ball moves this tick.
    let mut g = GameState::new();
    g.ball = Ball { x: 320, y: 300, vx: 2, vy: 3 };
    g.route_event(GameEvent::AnimationFrame);
    assert_eq!(g.computer.paddle.x, 180);
    assert_eq!(g.computer.paddle.vx, 5);
    assert_eq!(g.ball.x, 322);
}
