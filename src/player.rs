use vstd::prelude::*;
use macroquad::input::KeyCode;
use crate::config::{
    coord_fits, DEFAULT_PLAYER_HEALTH, DEFAULT_PLAYER_HEIGHT, DEFAULT_PLAYER_SPEED,
    DEFAULT_PLAYER_WIDTH, LEFT_MAP_BORDER, MAX_HEALTH, RIGHT_MAP_BORDER,
};

verus! {

/// A key identifier of the input backend, carried through unchanged.
#[verifier::external_type_specification]
#[verifier::external_body]
pub struct ExKeyCode(KeyCode);

/// A point of the playfield, in tenths of a unit; `y` grows downwards.
#[derive(Clone, Copy, Debug, PartialEq, Eq, Structural)]
pub struct Point {
    pub x: i64,
    pub y: i64,
}

#[derive(Clone, Copy, Debug, PartialEq, Eq, Structural)]
pub struct Size {
    pub width: i64,
    pub height: i64,
}

impl Size {
    /// The size shared by every player's paddle.
    pub open spec fn player_spec() -> Size {
        Size { width: DEFAULT_PLAYER_WIDTH, height: DEFAULT_PLAYER_HEIGHT }
    }

    pub fn player() -> (r: Size)
        ensures
            r == Size::player_spec(),
    {
        Size { width: DEFAULT_PLAYER_WIDTH, height: DEFAULT_PLAYER_HEIGHT }
    }
}

/// The two keys that move a player's paddle.
pub struct Controls {
    pub move_left: KeyCode,
    pub move_right: KeyCode,
}

pub struct Player {
    /// Top-left corner of the paddle.
    pub position: Point,
    pub number: i8,
    pub size: Size,
    pub health: i8,
    pub score: i32,
    pub max_score: i32,
    pub controls: Controls,
}

/// Whether a paddle of the standard width that starts at `x` lies between the borders.
pub open spec fn x_in_bounds(x: int) -> bool {
    LEFT_MAP_BORDER <= x <= RIGHT_MAP_BORDER - DEFAULT_PLAYER_WIDTH
}

/// Where a paddle of the standard width that starts at `x` stands after one frame.
pub open spec fn next_x(x: int, paused: bool, left_down: bool, right_down: bool) -> int {
    if paused {
        x
    } else {
        let moved = x - (if left_down { DEFAULT_PLAYER_SPEED as int } else { 0 }) + (if right_down {
            DEFAULT_PLAYER_SPEED as int
        } else {
            0
        });
        if moved < LEFT_MAP_BORDER {
            LEFT_MAP_BORDER as int
        } else if moved + DEFAULT_PLAYER_WIDTH > RIGHT_MAP_BORDER {
            RIGHT_MAP_BORDER - DEFAULT_PLAYER_WIDTH
        } else {
            moved
        }
    }
}

/// Where a paddle that starts at `x` stands after a run of frames, each
/// given as (paused, left key down, right key down).
pub open spec fn x_after_frames(x: int, frames: Seq<(bool, bool, bool)>) -> int
    decreases frames.len(),
{
    if frames.len() == 0 {
        x
    } else {
        let f = frames.last();
        next_x(x_after_frames(x, frames.drop_last()), f.0, f.1, f.2)
    }
}

/// A paddle that starts between the borders stays there, whatever keys are
/// held and whenever the game pauses.
pub proof fn lemma_frames_keep_x_in_bounds(x: int, frames: Seq<(bool, bool, bool)>)
    requires
        x_in_bounds(x),
    ensures
        x_in_bounds(x_after_frames(x, frames)),
    decreases frames.len(),
{
    if frames.len() > 0 {
        lemma_frames_keep_x_in_bounds(x, frames.drop_last());
    }
}

impl Player {
    /// Health never exceeds its cap, the high-water mark never lies below the
    /// score, the paddle has the standard size, and its corner can be moved.
    pub open spec fn wf(&self) -> bool {
        &&& self.health <= MAX_HEALTH
        &&& self.score <= self.max_score
        &&& self.size == Size::player_spec()
        &&& coord_fits(self.position.x as int)
        &&& coord_fits(self.position.y as int)
    }

    /// Everything but health and score is equal.
    pub open spec fn same_but_stats(&self, other: &Player) -> bool {
        &&& self.position == other.position
        &&& self.number == other.number
        &&& self.size == other.size
        &&& self.controls == other.controls
    }

    pub fn new(position: Point, controls: Controls, number: i8) -> (r: Player)
        requires
            coord_fits(position.x as int),
            coord_fits(position.y as int),
        ensures
            r.wf(),
            r.position == position,
            r.controls == controls,
            r.number == number,
            r.health == DEFAULT_PLAYER_HEALTH,
            r.score == 0,
            r.max_score == 0,
    {
        Player {
            position,
            number,
            size: Size::player(),
            health: DEFAULT_PLAYER_HEALTH,
            score: 0,
            max_score: 0,
            controls,
        }
    }

    pub fn set_controls(&mut self, controls: Controls) -> (r: &Self)
        ensures
            *r == *final(self),
            final(self).controls == controls,
            final(self).position == old(self).position,
            final(self).number == old(self).number,
            final(self).size == old(self).size,
            final(self).health == old(self).health,
            final(self).score == old(self).score,
            final(self).max_score == old(self).max_score,
    {
        self.controls = controls;
        self
    }

    pub fn set_position(&mut self, new_position: Point) -> (r: &Self)
        requires
            coord_fits(new_position.x as int),
            coord_fits(new_position.y as int),
        ensures
            *r == *final(self),
            old(self).wf() ==> final(self).wf(),
            final(self).position == new_position,
            final(self).controls == old(self).controls,
            final(self).number == old(self).number,
            final(self).size == old(self).size,
            final(self).health == old(self).health,
            final(self).score == old(self).score,
            final(self).max_score == old(self).max_score,
    {
        self.position = new_position;
        self
    }

    /// The cap on health is part of a player's invariant, so a new health above
    /// it is not accepted.
    pub fn set_health(&mut self, health: i8) -> (r: &Self)
        requires
            health <= MAX_HEALTH,
        ensures
            *r == *final(self),
            old(self).wf() ==> final(self).wf(),
            final(self).health == health,
            final(self).same_but_stats(old(self)),
            final(self).score == old(self).score,
            final(self).max_score == old(self).max_score,
    {
        self.health = health;
        self
    }

    /// Adds to health, then cuts the result down to `MAX_HEALTH`.
    pub fn add_health(&mut self, health_to_add: i8) -> (r: &Self)
        requires
            old(self).wf(),
            i8::MIN <= old(self).health + health_to_add,
        ensures
            *r == *final(self),
            final(self).wf(),
            final(self).health == (if old(self).health + health_to_add > MAX_HEALTH {
                MAX_HEALTH as int
            } else {
                old(self).health + health_to_add
            }),
            final(self).health <= MAX_HEALTH,
            old(self).health == MAX_HEALTH && health_to_add > 0 ==> final(self).health
                == MAX_HEALTH,
            final(self).same_but_stats(old(self)),
            final(self).score == old(self).score,
            final(self).max_score == old(self).max_score,
    {
        let sum: i16 = self.health as i16 + health_to_add as i16;
        if sum > MAX_HEALTH as i16 {
            self.health = MAX_HEALTH;
        } else {
            self.health = sum as i8;
        }
        self
    }

    /// Takes from health, with no floor.
    pub fn remove_health(&mut self, health_to_remove: i8) -> (r: &Self)
        requires
            old(self).wf(),
            i8::MIN <= old(self).health - health_to_remove <= MAX_HEALTH,
        ensures
            *r == *final(self),
            final(self).wf(),
            final(self).health == old(self).health - health_to_remove,
            final(self).same_but_stats(old(self)),
            final(self).score == old(self).score,
            final(self).max_score == old(self).max_score,
    {
        self.health = self.health - health_to_remove;
        self
    }

    /// Adds to the score and raises the high-water mark to it when exceeded.
    pub fn add_score(&mut self, score_to_add: i32) -> (r: &Self)
        requires
            old(self).wf(),
            i32::MIN <= old(self).score + score_to_add <= i32::MAX,
        ensures
            *r == *final(self),
            final(self).wf(),
            final(self).score == old(self).score + score_to_add,
            final(self).max_score == (if old(self).max_score < final(self).score {
                final(self).score
            } else {
                old(self).max_score
            }),
            final(self).max_score >= old(self).max_score,
            final(self).same_but_stats(old(self)),
            final(self).health == old(self).health,
    {
        self.score = self.score + score_to_add;
        if self.max_score < self.score {
            self.max_score = self.score;
        }
        self
    }

    /// Takes from the score, with no floor; the high-water mark stays.
    pub fn remove_score(&mut self, score_to_remove: i32) -> (r: &Self)
        requires
            old(self).wf(),
            i32::MIN <= old(self).score - score_to_remove <= old(self).max_score,
        ensures
            *r == *final(self),
            final(self).wf(),
            final(self).score == old(self).score - score_to_remove,
            final(self).same_but_stats(old(self)),
            final(self).health == old(self).health,
            final(self).max_score == old(self).max_score,
    {
        self.score = self.score - score_to_remove;
        self
    }

    /// Moves the paddle by the held keys, both of which may apply and cancel
    /// out, and keeps it between the borders; nothing moves while paused.
    pub fn on_frame(&mut self, paused: bool, left_down: bool, right_down: bool)
        requires
            old(self).wf(),
        ensures
            final(self).wf(),
            final(self).position.x == next_x(old(self).position.x as int, paused, left_down, right_down),
            final(self).position.y == old(self).position.y,
            !paused ==> x_in_bounds(final(self).position.x as int),
            x_in_bounds(old(self).position.x as int) ==> x_in_bounds(final(self).position.x as int),
            final(self).number == old(self).number,
            final(self).size == old(self).size,
            final(self).controls == old(self).controls,
            final(self).health == old(self).health,
            final(self).score == old(self).score,
            final(self).max_score == old(self).max_score,
    {
        let mut new_position = self.position;
        if !paused {
            if left_down {
                new_position.x = new_position.x - DEFAULT_PLAYER_SPEED;
            }
            if right_down {
                new_position.x = new_position.x + DEFAULT_PLAYER_SPEED;
            }
            if new_position.x < LEFT_MAP_BORDER {
                new_position.x = LEFT_MAP_BORDER;
            } else if new_position.x + self.size.width > RIGHT_MAP_BORDER {
                new_position.x = RIGHT_MAP_BORDER - self.size.width;
            }
        }
        self.set_position(new_position);
    }
}

} // verus!
