use vstd::prelude::*;
use crate::ball::{
    fall_speed, overlaps, spawn_position_ok, spawn_x_ok, touches_ground, Ball, BallTypes,
};
use crate::config::{
    coord_fits, DEFAULT_BALL_Y, DEFAULT_PLAYER_WIDTH, DEFAULT_PLAYER_Y, MAX_HEALTH,
    SCREEN_WIDTH, SPAWN_DIFFICULTY_GAIN, TIME_LIMIT,
};
use crate::control::GameState;
use crate::player::{next_x, Controls, Player, Point};

verus! {

/// Score gained by a player who catches a normal or regeneration ball.
pub const CATCH_SCORE: i32 = 10;

/// Score lost by a player who catches a poisonous ball.
pub const POISON_PENALTY: i32 = 50;

/// Score lost by every player when a normal or regeneration ball lands.
pub const GROUND_PENALTY: i32 = 20;

/// `p` with `n` added to its score and the high-water mark raised to match.
pub open spec fn plus_score(p: Player, n: int) -> Player {
    Player {
        score: (p.score + n) as i32,
        max_score: if p.max_score < p.score + n {
            (p.score + n) as i32
        } else {
            p.max_score
        },
        ..p
    }
}

pub open spec fn plus_health(p: Player, n: int) -> Player {
    Player {
        health: if p.health + n > MAX_HEALTH {
            MAX_HEALTH
        } else {
            (p.health + n) as i8
        },
        ..p
    }
}

/// A player after catching a ball of type `t`.
pub open spec fn catch_effect(p: Player, t: BallTypes) -> Player {
    match t {
        BallTypes::Normal => plus_score(p, CATCH_SCORE as int),
        BallTypes::Poisonous => plus_health(plus_score(p, -POISON_PENALTY), -1),
        BallTypes::Regeneration => plus_health(plus_score(p, CATCH_SCORE as int), 1),
    }
}

/// A player after a ball of type `t` reached the ground.
pub open spec fn ground_effect(p: Player, t: BallTypes) -> Player {
    match t {
        BallTypes::Normal => plus_health(plus_score(p, -GROUND_PENALTY), -1),
        BallTypes::Poisonous => p,
        BallTypes::Regeneration => plus_score(p, -GROUND_PENALTY),
    }
}

/// Room for `k` more balls' worth of effects without leaving the integer types:
/// each ball costs at most 2 health and 70 score, and gives at most 10 score.
pub open spec fn has_headroom(p: Player, k: int) -> bool {
    &&& p.health >= i8::MIN + 2 * k
    &&& p.score >= i32::MIN + 70 * k
    &&& p.score <= i32::MAX - 10 * k
}

/// Room for the effect of one ball reaching the ground.
pub open spec fn ground_room(p: Player) -> bool {
    p.health >= i8::MIN + 1 && p.score >= i32::MIN + GROUND_PENALTY
}

/// How far one ball's frame can move a player's health and score.
pub open spec fn within_one_ball(new: Player, old: Player) -> bool {
    &&& new.wf()
    &&& new.same_but_stats(&old)
    &&& new.health >= old.health - 2
    &&& new.score >= old.score - 70
    &&& new.score <= old.score + 10
}

/// Where `b` stands after one frame's fall.
pub open spec fn fallen(b: Ball, paused: bool, difficulty: int) -> Ball {
    Ball {
        position: crate::player::Point {
            x: b.position.x,
            y: (b.position.y + (if paused {
                0
            } else {
                fall_speed(difficulty)
            })) as i64,
        },
        ..b
    }
}

/// Every ball of `balls` below `n`, after its fall, overlaps no player and
/// stays above the ground.
pub open spec fn quiet_prefix(
    balls: Seq<Ball>,
    players: Seq<Player>,
    paused: bool,
    difficulty: int,
    n: int,
) -> bool {
    forall|k: int|
        0 <= k < n ==> misses_all(fallen(#[trigger] balls[k], paused, difficulty), players)
            && !touches_ground(fallen(balls[k], paused, difficulty))
}

/// Horizontal position of the second player at the start of a game.
pub const SECOND_PLAYER_X: i64 = SCREEN_WIDTH - 1500 - DEFAULT_PLAYER_WIDTH;

/// Vertical position of the second player at the start of a game, 12 units
/// below the first.
pub const SECOND_PLAYER_Y: i64 = DEFAULT_PLAYER_Y + 1200;

/// Horizontal position of the first player at the start of a game.
pub const FIRST_PLAYER_X: i64 = 1500;

/// `b` overlaps none of the players.
pub open spec fn misses_all(b: Ball, players: Seq<Player>) -> bool {
    forall|k: int| 0 <= k < players.len() ==> !overlaps(b, #[trigger] players[k])
}

/// Applies to `player` the effect of catching a ball of type `ball_type`.
pub fn apply_catch(player: &mut Player, ball_type: BallTypes)
    requires
        old(player).wf(),
        old(player).health >= i8::MIN + 1,
        old(player).score >= i32::MIN + POISON_PENALTY,
        old(player).score <= i32::MAX - CATCH_SCORE,
    ensures
        *final(player) == catch_effect(*old(player), ball_type),
        final(player).wf(),
{
    match ball_type {
        BallTypes::Normal => {
            player.add_score(CATCH_SCORE);
        },
        BallTypes::Poisonous => {
            player.remove_score(POISON_PENALTY);
            player.remove_health(1);
        },
        BallTypes::Regeneration => {
            player.add_score(CATCH_SCORE);
            player.add_health(1);
        },
    }
}

/// Applies to `player` the effect of a ball of type `ball_type` reaching the ground.
pub fn apply_ground(player: &mut Player, ball_type: BallTypes)
    requires
        old(player).wf(),
        ground_room(*old(player)),
    ensures
        *final(player) == ground_effect(*old(player), ball_type),
        final(player).wf(),
{
    match ball_type {
        BallTypes::Normal => {
            player.remove_score(GROUND_PENALTY);
            player.remove_health(1);
        },
        BallTypes::Poisonous => {},
        BallTypes::Regeneration => {
            player.remove_score(GROUND_PENALTY);
        },
    }
}

/// The whole simulation: the shared scalars, the players and the balls.
pub struct Game {
    pub state: GameState,
    pub players: Vec<Player>,
    pub balls: Vec<Ball>,
}

impl Game {
    pub open spec fn wf(&self) -> bool {
        &&& self.state.wf()
        &&& self.players.len() < 128
        &&& forall|k: int| 0 <= k < self.players.len() ==> (#[trigger] self.players[k]).wf()
        &&& forall|k: int| 0 <= k < self.balls.len() ==> (#[trigger] self.balls[k]).wf()
    }

    /// As `wf`, but the ball at `i` may have fallen one frame below the limit.
    pub open spec fn wf_except(&self, i: int) -> bool {
        &&& self.state.wf()
        &&& self.players.len() < 128
        &&& forall|k: int| 0 <= k < self.players.len() ==> (#[trigger] self.players[k]).wf()
        &&& forall|k: int| 0 <= k < self.balls.len() && k != i ==> (#[trigger] self.balls[k]).wf()
        &&& 0 <= i < self.balls.len()
        &&& self.balls[i].testable()
    }

    /// Where the ball at `i` stands after this frame's fall.
    pub open spec fn fallen_ball(&self, i: int) -> Ball {
        fallen(self.balls[i], self.state.paused, self.state.difficulty as int)
    }

    /// After its fall the ball at `i` overlaps no player and stays above the ground.
    pub open spec fn quiet_ball(&self, i: int) -> bool {
        misses_all(self.fallen_ball(i), self.players@) && !touches_ground(self.fallen_ball(i))
    }

    /// After its fall the ball at `i` overlaps no player and reaches the ground.
    pub open spec fn landing_ball(&self, i: int) -> bool {
        misses_all(self.fallen_ball(i), self.players@) && touches_ground(self.fallen_ball(i))
    }

    /// Every player has room for `k` more balls' worth of effects.
    pub open spec fn headroom(&self, k: int) -> bool {
        forall|j: int| 0 <= j < self.players.len() ==> has_headroom(#[trigger] self.players[j], k)
    }

    /// The ball at `i` reached the ground: every player takes the effect of its
    /// type, and the ball is put back at the top.
    pub fn ground_impact(&mut self, i: usize)
        requires
            old(self).wf_except(i as int),
            forall|k: int| 0 <= k < old(self).players.len() ==> ground_room(#[trigger] old(self).players[k]),
        ensures
            final(self).state == old(self).state,
            final(self).players.len() == old(self).players.len(),
            forall|k: int|
                0 <= k < old(self).players.len() ==> #[trigger] final(self).players[k]
                    == ground_effect(old(self).players[k], old(self).balls[i as int].ball_type),
            final(self).balls.len() == old(self).balls.len(),
            spawn_position_ok(final(self).balls[i as int].position),
            final(self).balls[i as int].wf(),
            forall|k: int|
                0 <= k < old(self).balls.len() && k != i ==> #[trigger] final(self).balls[k]
                    == old(self).balls[k],
            final(self).wf(),
    {
        let ball_type = self.balls[i].ball_type;
        let n = self.players.len();
        let mut j: usize = 0;
        while j < n
            invariant
                0 <= j <= n,
                n == self.players.len(),
                n == old(self).players.len(),
                self.state == old(self).state,
                self.balls == old(self).balls,
                ball_type == old(self).balls[i as int].ball_type,
                forall|k: int|
                    0 <= k < j ==> #[trigger] self.players[k] == ground_effect(
                        old(self).players[k],
                        ball_type,
                    ),
                forall|k: int| j <= k < n ==> #[trigger] self.players[k] == old(self).players[k],
                forall|k: int| 0 <= k < n ==> (#[trigger] self.players[k]).wf(),
                old(self).wf_except(i as int),
                forall|k: int| 0 <= k < n ==> ground_room(#[trigger] old(self).players[k]),
            decreases n - j,
        {
            assert(ground_room(old(self).players[j as int]));
            apply_ground(&mut self.players[j], ball_type);
            j = j + 1;
        }
        self.balls[i].reset();
    }

    /// One frame of the ball at `i`: it falls, every player it overlaps takes
    /// the effect of catching it (and it is put back at the top), and if it
    /// then reaches the ground every player takes the ground effect (and it is
    /// put back at the top).
    pub fn update_ball(&mut self, i: usize)
        requires
            old(self).wf(),
            old(self).headroom(1),
            i < old(self).balls.len(),
        ensures
            final(self).wf(),
            final(self).state == old(self).state,
            final(self).players.len() == old(self).players.len(),
            forall|k: int|
                0 <= k < old(self).players.len() ==> within_one_ball(
                    #[trigger] final(self).players[k],
                    old(self).players[k],
                ),
            final(self).balls.len() == old(self).balls.len(),
            forall|k: int|
                0 <= k < old(self).balls.len() && k != i ==> #[trigger] final(self).balls[k]
                    == old(self).balls[k],
            old(self).quiet_ball(i as int) ==> final(self).balls[i as int] == old(self).fallen_ball(
                i as int,
            ),
            old(self).quiet_ball(i as int) ==> final(self).players@ == old(self).players@,
            old(self).landing_ball(i as int) ==> forall|k: int|
                0 <= k < old(self).players.len() ==> #[trigger] final(self).players[k]
                    == ground_effect(old(self).players[k], old(self).balls[i as int].ball_type),
            !old(self).quiet_ball(i as int) ==> spawn_position_ok(
                final(self).balls[i as int].position,
            ),
    {
        let paused = self.state.paused;
        let difficulty = self.state.difficulty;
        self.balls[i].on_frame(paused, difficulty);
        let ghost f = self.balls[i as int];
        assert(f == old(self).fallen_ball(i as int));
        let ghost mut hit = false;
        let n = self.players.len();
        let mut j: usize = 0;
        while j < n
            invariant
                0 <= j <= n,
                n == self.players.len(),
                n == old(self).players.len(),
                i < self.balls.len(),
                self.balls.len() == old(self).balls.len(),
                self.state == old(self).state,
                self.wf_except(i as int),
                forall|k: int|
                    0 <= k < self.balls.len() && k != i ==> #[trigger] self.balls[k]
                        == old(self).balls[k],
                self.balls[i as int].radius == f.radius,
                forall|k: int|
                    0 <= k < n ==> {
                        let p = #[trigger] self.players[k];
                        let q = old(self).players[k];
                        &&& p.same_but_stats(&q)
                        &&& p.health >= q.health - 1
                        &&& p.score >= q.score - 50
                        &&& p.score <= q.score + 10
                    },
                forall|k: int| j <= k < n ==> #[trigger] self.players[k] == old(self).players[k],
                !hit ==> self.balls[i as int] == f && self.players@ == old(self).players@,
                !hit ==> forall|k: int| 0 <= k < j ==> !overlaps(f, #[trigger] old(self).players[k]),
                hit ==> spawn_position_ok(self.balls[i as int].position),
                misses_all(f, old(self).players@) ==> !hit,
                old(self).wf(),
                old(self).headroom(1),
            decreases n - j,
        {
            if self.balls[i].check_collision_with_player(&self.players[j]) {
                proof {
                    if !hit {
                        assert(overlaps(f, old(self).players@[j as int]));
                    }
                }
                let ball_type = self.balls[i].ball_type;
                assert(has_headroom(old(self).players[j as int], 1));
                apply_catch(&mut self.players[j], ball_type);
                self.balls[i].reset();
                proof {
                    hit = true;
                }
            }
            j = j + 1;
        }
        if self.balls[i].check_collision_with_ground() {
            assert forall|k: int| 0 <= k < n implies ground_room(#[trigger] self.players[k]) by {
                assert(has_headroom(old(self).players[k], 1));
            }
            self.ground_impact(i);
        }
    }

    /// The bounds under which `step` can run at `now`: a clock that does not go
    /// back, a difficulty that can still rise, and room in every player's
    /// health and score for one more ball than there are.
    pub open spec fn step_ready(&self, now: int) -> bool {
        &&& self.state.clock <= now <= TIME_LIMIT
        &&& self.state.difficulty + SPAWN_DIFFICULTY_GAIN <= i32::MAX
        &&& self.headroom(self.balls.len() + 1)
    }

    /// Whether `step` can run at `now`.
    pub fn ready_for(&self, now: i64) -> (r: bool)
        requires
            self.wf(),
        ensures
            r == self.step_ready(now as int),
    {
        if !(self.state.clock <= now && now <= TIME_LIMIT) {
            return false;
        }
        if self.state.difficulty > i32::MAX - SPAWN_DIFFICULTY_GAIN {
            return false;
        }
        let k: i128 = self.balls.len() as i128 + 1;
        let n = self.players.len();
        let mut j: usize = 0;
        while j < n
            invariant
                0 <= j <= n,
                n == self.players.len(),
                k == self.balls.len() + 1,
                forall|q: int| 0 <= q < j ==> has_headroom(#[trigger] self.players[q], k as int),
            decreases n - j,
        {
            let p = &self.players[j];
            if !(p.health as i128 >= i8::MIN as i128 + 2 * k && p.score as i128 >= i32::MIN as i128
                + 70 * k && p.score as i128 <= i32::MAX as i128 - 10 * k) {
                return false;
            }
            j = j + 1;
        }
        true
    }

    /// An empty game whose spawn clock starts at `now`.
    pub fn new(now: i64) -> (r: Game)
        requires
            0 <= now <= TIME_LIMIT,
        ensures
            r.wf(),
            r.state == GameState::new_spec(now as int),
            r.players@ == Seq::<Player>::empty(),
            r.balls@ == Seq::<Ball>::empty(),
    {
        Game { state: GameState::new(now), players: Vec::new(), balls: Vec::new() }
    }

    /// Adds a player numbered after those already there.
    pub fn add_player(&mut self, position: Point, controls: Controls)
        requires
            old(self).wf(),
            old(self).players.len() < 127,
            coord_fits(position.x as int),
            coord_fits(position.y as int),
        ensures
            final(self).wf(),
            final(self).state == old(self).state,
            final(self).balls@ == old(self).balls@,
            final(self).players.len() == old(self).players.len() + 1,
            forall|k: int|
                0 <= k < old(self).players.len() ==> #[trigger] final(self).players[k]
                    == old(self).players[k],
            ({
                let p = final(self).players[old(self).players.len() as int];
                &&& p.position == position
                &&& p.controls == controls
                &&& p.number == old(self).players.len() + 1
                &&& p.health == crate::config::DEFAULT_PLAYER_HEALTH
                &&& p.score == 0
                &&& p.max_score == 0
            }),
    {
        let number = self.players.len() as i8 + 1;
        let player = Player::new(position, controls, number);
        self.players.push(player);
    }

    pub fn add_ball(&mut self, position: Point, ball_type: BallTypes)
        requires
            old(self).wf(),
            coord_fits(position.x as int),
            coord_fits(position.y as int),
        ensures
            final(self).wf(),
            final(self).state == old(self).state,
            final(self).players@ == old(self).players@,
            final(self).balls@ == old(self).balls@.push(
                Ball { position, radius: crate::config::DEFAULT_BALL_RADIUS, ball_type },
            ),
    {
        let ball = Ball::new(position, ball_type);
        self.balls.push(ball);
    }

    /// The opening position: one normal ball at a random spot at the top, and
    /// two players, the second further right and lower.
    pub fn start(now: i64, first: Controls, second: Controls) -> (r: Game)
        requires
            0 <= now <= TIME_LIMIT,
        ensures
            r.wf(),
            r.state == GameState::new_spec(now as int),
            r.balls.len() == 1,
            r.balls[0].ball_type == BallTypes::Normal,
            spawn_position_ok(r.balls[0].position),
            r.players.len() == 2,
            r.players[0].position == (Point { x: FIRST_PLAYER_X, y: DEFAULT_PLAYER_Y }),
            r.players[0].controls == first,
            r.players[0].number == 1,
            r.players[1].position == (Point { x: SECOND_PLAYER_X, y: SECOND_PLAYER_Y }),
            r.players[1].controls == second,
            r.players[1].number == 2,
            forall|k: int|
                0 <= k < 2 ==> (#[trigger] r.players[k]).health
                    == crate::config::DEFAULT_PLAYER_HEALTH && r.players[k].score == 0
                    && r.players[k].max_score == 0,
    {
        let mut game = Game::new(now);
        game.add_ball(Ball::gen_ball_position(), BallTypes::Normal);
        game.add_player(Point { x: FIRST_PLAYER_X, y: DEFAULT_PLAYER_Y }, first);
        game.add_player(Point { x: SECOND_PLAYER_X, y: SECOND_PLAYER_Y }, second);
        game
    }

    /// Whether this frame at `now`, with the pause key `escape_pressed`, spawns a ball.
    pub open spec fn spawns(&self, escape_pressed: bool, now: int) -> bool {
        self.state.after_escape(escape_pressed, now).spawn_due(now)
    }

    /// The shared scalars after this frame.
    pub open spec fn next_state(&self, escape_pressed: bool, now: int) -> GameState {
        let s = self.state.after_escape(escape_pressed, now);
        if s.spawn_due(now) {
            s.spawned(now)
        } else {
            s
        }
    }

    /// One frame at clock reading `now`. The pause key may toggle the pause;
    /// a due spawn raises the difficulty and adds a ball at the top; every
    /// ball falls and takes its effects (`update_ball`); every player moves by
    /// its keys, `keys[k]` being whether player `k`'s left and right keys are down.
    pub fn step(&mut self, escape_pressed: bool, keys: &Vec<(bool, bool)>, now: i64)
        requires
            old(self).wf(),
            old(self).step_ready(now as int),
            keys.len() == old(self).players.len(),
        ensures
            final(self).wf(),
            final(self).state == old(self).next_state(escape_pressed, now as int),
            final(self).state.difficulty >= old(self).state.difficulty,
            final(self).balls.len() == old(self).balls.len() + (if old(self).spawns(
                escape_pressed,
                now as int,
            ) {
                1int
            } else {
                0int
            }),
            old(self).spawns(escape_pressed, now as int) ==> spawn_x_ok(
                final(self).balls[old(self).balls.len() as int].position.x as int,
            ),
            final(self).players.len() == old(self).players.len(),
            forall|k: int|
                0 <= k < old(self).players.len() ==> {
                    let p = #[trigger] final(self).players[k];
                    let q = old(self).players[k];
                    &&& p.position.x == next_x(
                        q.position.x as int,
                        final(self).state.paused,
                        keys[k].0,
                        keys[k].1,
                    )
                    &&& p.position.y == q.position.y
                    &&& p.number == q.number
                    &&& p.size == q.size
                    &&& p.controls == q.controls
                    &&& p.health >= q.health - 2 * final(self).balls.len()
                    &&& p.score >= q.score - 70 * final(self).balls.len()
                    &&& p.score <= q.score + 10 * final(self).balls.len()
                },
            forall|i: int|
                0 <= i < old(self).balls.len() ==> #[trigger] final(self).balls[i] == fallen(
                    old(self).balls[i],
                    final(self).state.paused,
                    final(self).state.difficulty as int,
                ) || spawn_position_ok(final(self).balls[i].position),
            final(self).state.paused ==> forall|k: int|
                0 <= k < old(self).players.len() ==> (#[trigger] final(self).players[k]).position.x
                    == old(self).players[k].position.x,
            final(self).state.paused ==> forall|i: int|
                0 <= i < old(self).balls.len() ==> (#[trigger] final(self).balls[i]).position.y
                    == old(self).balls[i].position.y || final(self).balls[i].position.y
                    == DEFAULT_BALL_Y,
            !old(self).spawns(escape_pressed, now as int) && quiet_prefix(
                old(self).balls@,
                old(self).players@,
                final(self).state.paused,
                final(self).state.difficulty as int,
                old(self).balls.len() as int,
            ) ==> final(self).balls@ == old(self).balls@.map_values(
                |b: Ball| fallen(b, final(self).state.paused, final(self).state.difficulty as int),
            ) && forall|k: int|
                0 <= k < old(self).players.len() ==> {
                    let p = #[trigger] final(self).players[k];
                    let q = old(self).players[k];
                    &&& p.health == q.health
                    &&& p.score == q.score
                    &&& p.max_score == q.max_score
                },
    {
        self.state.handle_escape(escape_pressed, now);
        if self.state.spawn_due_at(now) {
            self.state.record_spawn();
            let position = Ball::gen_ball_position();
            let ball_type = Ball::gen_ball_type();
            self.balls.push(Ball::new(position, ball_type));
        }
        let ghost start_balls = self.balls@;
        let ghost start_players = self.players@;
        let paused = self.state.paused;
        let ghost difficulty = self.state.difficulty as int;
        let m = self.balls.len();
        assert(self.headroom(m as int)) by {
            assert forall|j: int| 0 <= j < self.players.len() implies has_headroom(
                #[trigger] self.players[j],
                m as int,
            ) by {
                assert(has_headroom(old(self).players[j], old(self).balls.len() + 1));
            }
        }
        let mut i: usize = 0;
        while i < m
            invariant
                0 <= i <= m,
                m == self.balls.len(),
                m == start_balls.len(),
                self.wf(),
                self.state.paused == paused,
                self.state.difficulty == difficulty,
                self.state == old(self).next_state(escape_pressed, now as int),
                self.players.len() == start_players.len(),
                start_players.len() == old(self).players.len(),
                start_players == old(self).players@,
                forall|k: int|
                    0 <= k < i ==> #[trigger] self.balls[k] == fallen(start_balls[k], paused, difficulty)
                        || spawn_position_ok(self.balls[k].position),
                forall|k: int| i <= k < m ==> #[trigger] self.balls[k] == start_balls[k],
                forall|k: int|
                    0 <= k < start_players.len() ==> {
                        let p = #[trigger] self.players[k];
                        let q = start_players[k];
                        &&& p.same_but_stats(&q)
                        &&& p.health >= q.health - 2 * i
                        &&& p.score >= q.score - 70 * i
                        &&& p.score <= q.score + 10 * i
                    },
                forall|k: int| 0 <= k < start_players.len() ==> has_headroom(#[trigger] start_players[k], m as int),
                quiet_prefix(start_balls, start_players, paused, difficulty, i as int) ==> self.players@ == start_players && forall|
                    k: int,
                |
                    0 <= k < i ==> #[trigger] self.balls[k] == fallen(start_balls[k], paused, difficulty),
            decreases m - i,
        {
            assert forall|j: int| 0 <= j < self.players.len() implies has_headroom(
                #[trigger] self.players[j],
                1,
            ) by {
                assert(has_headroom(start_players[j], m as int));
                assert(self.players[j].health >= start_players[j].health - 2 * i);
            }
            let ghost before = self.players@;
            proof {
                if quiet_prefix(start_balls, start_players, paused, difficulty, i as int + 1) {
                    assert(misses_all(fallen(start_balls[i as int], paused, difficulty), start_players)
                        && !touches_ground(fallen(start_balls[i as int], paused, difficulty)));
                }
            }
            self.update_ball(i);
            proof {
                assert forall|k: int| 0 <= k < start_players.len() implies {
                    let p = #[trigger] self.players[k];
                    let q = start_players[k];
                    &&& p.same_but_stats(&q)
                    &&& p.health >= q.health - 2 * (i + 1)
                    &&& p.score >= q.score - 70 * (i + 1)
                    &&& p.score <= q.score + 10 * (i + 1)
                } by {
                    assert(within_one_ball(self.players[k], before[k]));
                }
            }
            i = i + 1;
        }
        let n = self.players.len();
        let mut j: usize = 0;
        while j < n
            invariant
                0 <= j <= n,
                n == self.players.len(),
                n == keys.len(),
                n == start_players.len(),
                self.wf(),
                self.state == old(self).next_state(escape_pressed, now as int),
                self.state.paused == paused,
                self.balls.len() == m,
                forall|k: int|
                    0 <= k < m ==> #[trigger] self.balls[k] == fallen(start_balls[k], paused, difficulty)
                        || spawn_position_ok(self.balls[k].position),
                quiet_prefix(start_balls, start_players, paused, difficulty, m as int) ==> forall|k: int|
                    0 <= k < m ==> #[trigger] self.balls[k] == fallen(start_balls[k], paused, difficulty),
                forall|k: int|
                    0 <= k < n ==> {
                        let p = #[trigger] self.players[k];
                        let q = start_players[k];
                        &&& p.position.y == q.position.y
                        &&& p.number == q.number
                        &&& p.size == q.size
                        &&& p.controls == q.controls
                        &&& p.health >= q.health - 2 * m
                        &&& p.score >= q.score - 70 * m
                        &&& p.score <= q.score + 10 * m
                        &&& (quiet_prefix(start_balls, start_players, paused, difficulty, m as int) ==> p.health
                            == q.health && p.score == q.score && p.max_score == q.max_score)
                    },
                forall|k: int|
                    0 <= k < j ==> (#[trigger] self.players[k]).position.x == next_x(
                        start_players[k].position.x as int,
                        paused,
                        keys[k].0,
                        keys[k].1,
                    ),
                forall|k: int|
                    j <= k < n ==> (#[trigger] self.players[k]).position.x == start_players[k].position.x,
            decreases n - j,
        {
            let (left_down, right_down) = keys[j];
            self.players[j].on_frame(paused, left_down, right_down);
            j = j + 1;
        }
        proof {
            if old(self).spawns(escape_pressed, now as int) {
                let last = old(self).balls.len() as int;
                assert(self.balls[last] == fallen(start_balls[last], paused, difficulty)
                    || spawn_position_ok(self.balls[last].position));
            }
            if !old(self).spawns(escape_pressed, now as int) && quiet_prefix(
                old(self).balls@,
                old(self).players@,
                paused,
                difficulty,
                old(self).balls.len() as int,
            ) {
                assert(start_balls == old(self).balls@);
                assert(self.balls@ =~= old(self).balls@.map_values(
                    |b: Ball| fallen(b, paused, difficulty),
                ));
            }
        }
    }
}

} // verus!
