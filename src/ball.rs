use vstd::prelude::*;
use crate::config::{
    coord_fits, BASE_FALL_SPEED, COORD_LIMIT, DEFAULT_BALL_RADIUS, DEFAULT_BALL_Y,
    GROUND_MAP_BORDER, MAX_SPAWN_X, MIN_SPAWN_X, NORMAL_BALL_PERCENT,
    NORMAL_OR_POISONOUS_PERCENT,
};
use crate::player::{Player, Point};
use crate::random::random_in_range;

verus! {

#[derive(Clone, Copy, Debug, PartialEq, Eq, Structural)]
pub enum BallTypes {
    Normal,
    Poisonous,
    Regeneration,
}

/// The colour a ball is drawn in.
#[derive(Clone, Copy, Debug, PartialEq, Eq, Structural)]
pub enum Color {
    Black,
    Red,
    Green,
}

pub struct Ball {
    /// Centre of the ball.
    pub position: Point,
    pub radius: i64,
    pub ball_type: BallTypes,
}

/// The type that a draw of `roll` in `[0, 100)` stands for: 70 % normal,
/// 17 % poisonous, 13 % regeneration.
pub open spec fn type_for_roll(roll: int) -> BallTypes {
    if roll < NORMAL_BALL_PERCENT {
        BallTypes::Normal
    } else if roll < NORMAL_OR_POISONOUS_PERCENT {
        BallTypes::Poisonous
    } else {
        BallTypes::Regeneration
    }
}

pub open spec fn color_of(t: BallTypes) -> Color {
    match t {
        BallTypes::Normal => Color::Black,
        BallTypes::Poisonous => Color::Red,
        BallTypes::Regeneration => Color::Green,
    }
}

/// A horizontal position that a freshly placed ball may get.
pub open spec fn spawn_x_ok(x: int) -> bool {
    MIN_SPAWN_X <= x < MAX_SPAWN_X
}

/// Where a freshly placed ball may stand.
pub open spec fn spawn_position_ok(p: Point) -> bool {
    spawn_x_ok(p.x as int) && p.y == DEFAULT_BALL_Y
}

/// Per-frame fall at a difficulty: `2 + difficulty / 10` units.
pub open spec fn fall_speed(difficulty: int) -> int {
    BASE_FALL_SPEED + difficulty
}

/// The bounding square of the ball overlaps the player's rectangle.
pub open spec fn overlaps(ball: Ball, player: Player) -> bool {
    &&& player.position.y < ball.position.y + ball.radius
    &&& player.position.y + player.size.height > ball.position.y - ball.radius
    &&& player.position.x < ball.position.x + ball.radius
    &&& player.position.x + player.size.width > ball.position.x - ball.radius
}

pub open spec fn touches_ground(ball: Ball) -> bool {
    ball.position.y + ball.radius > GROUND_MAP_BORDER
}

impl Ball {
    /// The standard radius, and a position that the simulation can move.
    pub open spec fn wf(&self) -> bool {
        &&& self.radius == DEFAULT_BALL_RADIUS
        &&& coord_fits(self.position.x as int)
        &&& coord_fits(self.position.y as int)
    }

    /// The standard radius, and a position that at most one frame's fall has
    /// carried below the limit of `wf`.
    pub open spec fn testable(&self) -> bool {
        &&& self.radius == DEFAULT_BALL_RADIUS
        &&& coord_fits(self.position.x as int)
        &&& -COORD_LIMIT <= self.position.y <= 2 * COORD_LIMIT
    }

    pub fn new(position: Point, ball_type: BallTypes) -> (r: Ball)
        ensures
            r.position == position,
            r.ball_type == ball_type,
            r.radius == DEFAULT_BALL_RADIUS,
            coord_fits(position.x as int) && coord_fits(position.y as int) ==> r.wf(),
    {
        Ball { position, radius: DEFAULT_BALL_RADIUS, ball_type }
    }

    /// A random position at the top of the playfield, away from the borders.
    pub fn gen_ball_position() -> (r: Point)
        ensures
            spawn_position_ok(r),
    {
        Point { x: random_in_range(MIN_SPAWN_X, MAX_SPAWN_X), y: DEFAULT_BALL_Y }
    }

    /// The type that a draw in `[0, 100)` stands for.
    pub fn ball_type_for_roll(roll: i64) -> (r: BallTypes)
        ensures
            r == type_for_roll(roll as int),
    {
        if roll < NORMAL_BALL_PERCENT {
            BallTypes::Normal
        } else if roll < NORMAL_OR_POISONOUS_PERCENT {
            BallTypes::Poisonous
        } else {
            BallTypes::Regeneration
        }
    }

    /// A random type, from a uniform draw in `[0, 100)`.
    pub fn gen_ball_type() -> (r: BallTypes)
        ensures
            exists|roll: int| 0 <= roll < 100 && r == type_for_roll(roll),
    {
        let roll = random_in_range(0, 100);
        Self::ball_type_for_roll(roll)
    }

    pub fn get_color_for_ball_type(ball_type: &BallTypes) -> (r: Color)
        ensures
            r == color_of(*ball_type),
    {
        match ball_type {
            BallTypes::Normal => Color::Black,
            BallTypes::Poisonous => Color::Red,
            BallTypes::Regeneration => Color::Green,
        }
    }

    /// Puts the ball back at the top, at a random position and with a random type.
    pub fn reset(&mut self) -> (r: &Self)
        ensures
            *r == *final(self),
            spawn_position_ok(final(self).position),
            final(self).radius == old(self).radius,
            old(self).radius == DEFAULT_BALL_RADIUS ==> final(self).wf(),
            exists|roll: int| 0 <= roll < 100 && final(self).ball_type == type_for_roll(roll),
    {
        self.position = Self::gen_ball_position();
        self.ball_type = Self::gen_ball_type();
        self
    }

    pub fn set_position(&mut self, new_position: Point) -> (r: &Self)
        ensures
            *r == *final(self),
            final(self).position == new_position,
            final(self).radius == old(self).radius,
            final(self).ball_type == old(self).ball_type,
    {
        self.position = new_position;
        self
    }

    /// Overlap of the ball's bounding square with the player's rectangle.
    pub fn check_collision_with_player(&self, player: &Player) -> (r: bool)
        requires
            self.testable(),
            player.wf(),
        ensures
            r == overlaps(*self, *player),
    {
        player.position.y < self.position.y + self.radius
            && player.position.y + player.size.height > self.position.y - self.radius
            && player.position.x < self.position.x + self.radius
            && player.position.x + player.size.width > self.position.x - self.radius
    }

    pub fn check_collision_with_ground(&self) -> (r: bool)
        requires
            self.testable(),
        ensures
            r == touches_ground(*self),
    {
        self.position.y + self.radius > GROUND_MAP_BORDER
    }

    /// Falls by `fall_speed(difficulty)`, unless paused.
    pub fn on_frame(&mut self, paused: bool, difficulty: i32) -> (r: &Self)
        requires
            old(self).wf(),
            difficulty >= 0,
        ensures
            *r == *final(self),
            final(self).testable(),
            final(self).position.y == old(self).position.y + (if paused {
                0
            } else {
                fall_speed(difficulty as int)
            }),
            final(self).position.x == old(self).position.x,
            final(self).radius == old(self).radius,
            final(self).ball_type == old(self).ball_type,
    {
        let mut new_position = self.position;
        if !paused {
            new_position.y = new_position.y + BASE_FALL_SPEED + difficulty as i64;
        }
        self.set_position(new_position)
    }
}

} // verus!
