use falling_balls::ball::{Ball, BallTypes};
use falling_balls::config::{DEFAULT_BALL_Y, DEFAULT_PLAYER_Y, MAX_SPAWN_X, MIN_SPAWN_X};
use falling_balls::control::{spawn_interval, GameState};
use falling_balls::game::{apply_catch, apply_ground, Game, SECOND_PLAYER_X, SECOND_PLAYER_Y};
use falling_balls::player::{Controls, Player, Point};
use macroquad::input::KeyCode;

fn arrows() -> Controls {
    Controls { move_left: KeyCode::Left, move_right: KeyCode::Right }
}

fn letters() -> Controls {
    Controls { move_left: KeyCode::Q, move_right: KeyCode::D }
}

fn two_player_game(now: i64) -> Game {
    let mut g = Game::new(now);
    g.add_player(Point { x: 1500, y: DEFAULT_PLAYER_Y }, arrows());
    g.add_player(Point { x: SECOND_PLAYER_X, y: SECOND_PLAYER_Y }, letters());
    g
}

fn no_keys() -> Vec<(bool, bool)> {
    vec![(false, false), (false, false)]
}

#[test]
fn spawn_interval_shrinks_to_floor() {
    assert_eq!(spawn_interval(0), 50_000);
    assert_eq!(spawn_interval(1), 50_000);
    assert_eq!(spawn_interval(99), 50_000);
    assert_eq!(spawn_interval(100), 49_000);
    assert_eq!(spawn_interval(2_550), 25_000);
    assert_eq!(spawn_interval(4_000), 10_000);
    assert_eq!(spawn_interval(4_099), 10_000);
    assert_eq!(spawn_interval(1_000_000), 10_000);
    let mut last = spawn_interval(0);
    for d in 0..5_000 {
        let cur = spawn_interval(d);
        assert!(cur <= last && cur >= 10_000);
        last = cur;
    }
}

#[test]
fn difficulty_accessors() {
    let mut s = GameState::new(0);
    assert_eq!(s.get_difficulty(), 1);
    s.add_difficulty(2);
    assert_eq!(s.get_difficulty(), 3);
    s.set_difficulty(40);
    assert_eq!(s.get_difficulty(), 40);
    assert!(!s.is_paused());
    s.set_pause(&true);
    assert!(s.is_paused());
}

#[test]
fn pause_key_is_debounced() {
    let mut s = GameState::new(0);
    assert!(s.handle_escape(true, 10));
    assert!(s.is_paused());
    assert!(!s.handle_escape(true, 20));
    assert!(s.is_paused());
    assert!(!s.handle_escape(false, 30));
    assert!(s.handle_escape(true, 40));
    assert!(!s.is_paused());
}

#[test]
fn pause_time_is_added_to_spawn_offset() {
    let mut s = GameState::new(1_000);
    s.handle_escape(true, 2_000);
    s.handle_escape(false, 3_000);
    s.handle_escape(true, 9_000);
    assert!(!s.is_paused());
    assert_eq!(s.pause_offset, 7_000);
    s.handle_escape(false, 10_000);
    s.handle_escape(true, 11_000);
    s.handle_escape(false, 12_000);
    s.handle_escape(true, 14_000);
    assert_eq!(s.pause_offset, 10_000);
    // A spawn is due 50 s after the last one, pushed back by the 10 s paused.
    assert!(!s.spawn_due_at(61_000));
    assert!(s.spawn_due_at(61_001));
}

#[test]
fn spawn_is_never_due_while_paused() {
    let mut s = GameState::new(0);
    s.handle_escape(true, 10);
    assert!(!s.spawn_due_at(1_000_000));
}

#[test]
fn record_spawn_restarts_the_clock() {
    let mut s = GameState::new(0);
    s.handle_escape(true, 100);
    s.handle_escape(false, 200);
    s.handle_escape(true, 400);
    s.handle_escape(false, 60_000);
    assert!(s.spawn_due_at(60_000));
    s.record_spawn();
    assert_eq!(s.get_difficulty(), 3);
    assert_eq!(s.pause_offset, 0);
    assert_eq!(s.last_spawn, 60_000);
    assert!(!s.spawn_due_at(60_000));
}

#[test]
fn catch_effects_by_type() {
    let mut p = Player::new(Point { x: 1500, y: 3600 }, arrows(), 1);
    apply_catch(&mut p, BallTypes::Normal);
    assert_eq!((p.score, p.max_score, p.health), (10, 10, 3));
    apply_catch(&mut p, BallTypes::Poisonous);
    assert_eq!((p.score, p.max_score, p.health), (-40, 10, 2));
    apply_catch(&mut p, BallTypes::Regeneration);
    assert_eq!((p.score, p.max_score, p.health), (-30, 10, 3));
    apply_catch(&mut p, BallTypes::Regeneration);
    assert_eq!((p.score, p.max_score, p.health), (-20, 10, 3));
}

#[test]
fn ground_effects_by_type() {
    let mut p = Player::new(Point { x: 1500, y: 3600 }, arrows(), 1);
    apply_ground(&mut p, BallTypes::Normal);
    assert_eq!((p.score, p.max_score, p.health), (-20, 0, 2));
    apply_ground(&mut p, BallTypes::Poisonous);
    assert_eq!((p.score, p.max_score, p.health), (-20, 0, 2));
    apply_ground(&mut p, BallTypes::Regeneration);
    assert_eq!((p.score, p.max_score, p.health), (-40, 0, 2));
}

#[test]
fn ground_impact_of_normal_ball_hits_every_player() {
    let mut g = two_player_game(0);
    g.add_ball(Point { x: 4000, y: 5800 }, BallTypes::Normal);
    g.add_ball(Point { x: 3000, y: 1000 }, BallTypes::Normal);
    g.ground_impact(0);
    for p in g.players.iter() {
        assert_eq!(p.score, -20);
        assert_eq!(p.health, 2);
        assert_eq!(p.max_score, 0);
    }
    assert_eq!(g.balls[0].position.y, DEFAULT_BALL_Y);
    assert!(g.balls[0].position.x >= MIN_SPAWN_X && g.balls[0].position.x < MAX_SPAWN_X);
    assert_eq!(g.balls[1].position, Point { x: 3000, y: 1000 });
}

#[test]
fn ground_impact_of_poisonous_ball_spares_players() {
    let mut g = two_player_game(0);
    g.add_ball(Point { x: 4000, y: 5800 }, BallTypes::Poisonous);
    g.ground_impact(0);
    for p in g.players.iter() {
        assert_eq!((p.score, p.health), (0, 3));
    }
    assert_eq!(g.balls[0].position.y, DEFAULT_BALL_Y);
}

#[test]
fn caught_ball_scores_for_that_player_only() {
    let mut g = two_player_game(0);
    // Just above the first player's paddle: one frame's fall brings it onto it.
    g.add_ball(Point { x: 1900, y: 3280 }, BallTypes::Regeneration);
    g.players[0].set_health(1);
    g.update_ball(0);
    assert_eq!((g.players[0].score, g.players[0].health), (10, 2));
    assert_eq!((g.players[1].score, g.players[1].health), (0, 3));
    assert_eq!(g.balls[0].position.y, DEFAULT_BALL_Y);
}

#[test]
fn poisonous_catch_costs_score_and_health() {
    let mut g = two_player_game(0);
    g.add_ball(Point { x: 6000, y: 4500 }, BallTypes::Poisonous);
    g.update_ball(0);
    assert_eq!((g.players[1].score, g.players[1].health, g.players[1].max_score), (-50, 2, 0));
    assert_eq!((g.players[0].score, g.players[0].health), (0, 3));
}

#[test]
fn normal_ball_reaches_ground_after_free_fall() {
    let mut g = two_player_game(0);
    g.add_ball(Point { x: 4000, y: 400 }, BallTypes::Normal);
    let keys = no_keys();
    let mut frames = 0;
    loop {
        let before = g.balls[0].position.y;
        g.step(false, &keys, 0);
        frames += 1;
        let after = g.balls[0].position.y;
        if after != before + 21 {
            break;
        }
        assert_eq!(g.players[0].score, 0);
        assert_eq!(g.players[1].health, 3);
        assert!(frames < 1000);
    }
    assert_eq!(frames, 253);
    assert_eq!(g.balls.len(), 1);
    for p in g.players.iter() {
        assert_eq!(p.score, -20);
        assert_eq!(p.health, 2);
    }
    assert_eq!(g.balls[0].position.y, DEFAULT_BALL_Y);
    assert!(g.balls[0].position.x >= MIN_SPAWN_X && g.balls[0].position.x < MAX_SPAWN_X);
}

#[test]
fn step_spawns_when_interval_passed() {
    let mut g = two_player_game(0);
    let keys = no_keys();
    g.step(false, &keys, 50_000);
    assert_eq!(g.balls.len(), 0);
    assert_eq!(g.state.get_difficulty(), 1);
    g.step(false, &keys, 50_001);
    assert_eq!(g.balls.len(), 1);
    assert_eq!(g.state.get_difficulty(), 3);
    assert_eq!(g.state.last_spawn, 50_001);
    // The new ball has already fallen one frame at the raised difficulty.
    assert_eq!(g.balls[0].position.y, DEFAULT_BALL_Y + 23);
    g.step(false, &keys, 60_000);
    assert_eq!(g.balls.len(), 1);
}

#[test]
fn step_moves_players_by_keys() {
    let mut g = two_player_game(0);
    g.step(false, &vec![(true, false), (false, true)], 10);
    assert_eq!(g.players[0].position.x, 1430);
    assert_eq!(g.players[1].position.x, SECOND_PLAYER_X + 70);
}

#[test]
fn pause_freezes_balls_and_players() {
    let mut g = two_player_game(0);
    g.add_ball(Point { x: 4000, y: 1000 }, BallTypes::Normal);
    g.step(true, &vec![(true, true), (false, false)], 10);
    assert!(g.state.is_paused());
    assert_eq!(g.balls[0].position.y, 1000);
    for t in 0..100 {
        g.step(false, &vec![(true, false), (false, true)], 20 + t);
        assert_eq!(g.balls[0].position.y, 1000);
        assert_eq!(g.players[0].position.x, 1500);
        assert_eq!(g.players[1].position.x, SECOND_PLAYER_X);
    }
    // Long pause: no spawn happens while paused, even past the interval.
    g.step(false, &no_keys(), 200_000);
    assert_eq!(g.balls.len(), 1);
    g.step(true, &no_keys(), 200_010);
    assert!(!g.state.is_paused());
    assert_eq!(g.state.pause_offset, 200_000);
    assert_eq!(g.balls[0].position.y, 1021);
    // 10 ms ran before the pause, so the interval has passed just after 250 000.
    g.step(false, &no_keys(), 250_000);
    assert_eq!(g.balls.len(), 1);
    g.step(false, &no_keys(), 250_001);
    assert_eq!(g.balls.len(), 2);
}

#[test]
fn start_sets_up_two_players_and_a_ball() {
    let g = Game::start(5, arrows(), letters());
    assert_eq!(g.players.len(), 2);
    assert_eq!(g.players[0].position, Point { x: 1500, y: 3600 });
    assert_eq!(g.players[1].position, Point { x: 5600, y: 4800 });
    assert_eq!((g.players[0].number, g.players[1].number), (1, 2));
    assert_eq!(g.balls.len(), 1);
    assert_eq!(g.balls[0].ball_type, BallTypes::Normal);
    assert_eq!(g.balls[0].position.y, DEFAULT_BALL_Y);
    assert_eq!(g.state.last_spawn, 5);
}

#[test]
fn ready_for_checks_clock_and_room() {
    let mut g = two_player_game(100);
    assert!(g.ready_for(100));
    assert!(!g.ready_for(99));
    g.add_ball(Point { x: 4000, y: 400 }, BallTypes::Normal);
    g.players[1].set_health(-124);
    assert!(g.ready_for(100));
    g.players[1].set_health(-125);
    assert!(!g.ready_for(100));
    let mut h = two_player_game(0);
    h.state.set_difficulty(i32::MAX - 2);
    assert!(h.ready_for(0));
    h.state.set_difficulty(i32::MAX - 1);
    assert!(!h.ready_for(0));
}
