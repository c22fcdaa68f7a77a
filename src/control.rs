use vstd::prelude::*;
use crate::config::{
    SPAWN_BASE_INTERVAL, SPAWN_DIFFICULTY_GAIN, SPAWN_MAX_STEPS, SPAWN_STEP, TIME_LIMIT,
};

verus! {

/// The simulation's shared scalars: difficulty, pause, and the spawn clock.
pub struct GameState {
    pub difficulty: i32,
    pub paused: bool,
    /// Whether the pause key was pressed on the previous frame.
    pub escape_held: bool,
    /// The latest clock reading seen.
    pub clock: i64,
    pub last_spawn: i64,
    /// When the pause flag last changed by the pause key.
    pub pause_start: i64,
    /// Time spent paused since the last spawn.
    pub pause_offset: i64,
}

/// Steps taken off the base spawn interval: one per hundred difficulty levels, at most 40.
pub open spec fn spawn_reduction(difficulty: int) -> int {
    if difficulty / 100 > SPAWN_MAX_STEPS {
        SPAWN_MAX_STEPS as int
    } else {
        difficulty / 100
    }
}

/// Time between two spawns at a difficulty.
pub open spec fn spawn_interval_of(difficulty: int) -> int {
    SPAWN_BASE_INTERVAL - SPAWN_STEP * spawn_reduction(difficulty)
}

/// The time between two spawns at a given difficulty.
pub fn spawn_interval(difficulty: i32) -> (r: i64)
    requires
        difficulty >= 0,
    ensures
        r == spawn_interval_of(difficulty as int),
{
    let steps: i64 = difficulty as i64 / 100;
    let capped: i64 = if steps > SPAWN_MAX_STEPS {
        SPAWN_MAX_STEPS
    } else {
        steps
    };
    SPAWN_BASE_INTERVAL - SPAWN_STEP * capped
}

/// The spawn interval never grows with difficulty, and never falls below the
/// base interval less forty steps.
pub proof fn lemma_spawn_interval_monotone(d1: int, d2: int)
    requires
        0 <= d1 <= d2,
    ensures
        spawn_interval_of(d2) <= spawn_interval_of(d1),
        spawn_interval_of(d1) >= SPAWN_BASE_INTERVAL - SPAWN_STEP * SPAWN_MAX_STEPS,
        spawn_interval_of(d1) <= SPAWN_BASE_INTERVAL,
{
    assert(d1 / 100 <= d2 / 100) by (nonlinear_arith)
        requires
            0 <= d1 <= d2,
    ;
    assert(d1 / 100 >= 0) by (nonlinear_arith)
        requires
            0 <= d1,
    ;
}

impl GameState {
    /// A non-negative difficulty, and readings in time order:
    /// the pause offset never exceeds the time of the last pause change.
    pub open spec fn wf(&self) -> bool {
        &&& 0 <= self.difficulty
        &&& 0 <= self.pause_offset <= self.pause_start <= self.clock <= TIME_LIMIT
        &&& 0 <= self.last_spawn <= self.clock
    }

    /// The state after the pause key toggles the pause at `now`; leaving a
    /// pause adds its length to the pause offset.
    pub open spec fn toggled(self, now: int) -> GameState {
        GameState {
            difficulty: self.difficulty,
            paused: !self.paused,
            escape_held: self.escape_held,
            clock: self.clock,
            last_spawn: self.last_spawn,
            pause_start: now as i64,
            pause_offset: if self.paused {
                (self.pause_offset + (now - self.pause_start)) as i64
            } else {
                self.pause_offset
            },
        }
    }

    /// The state after a frame at `now` in which the pause key was or was not
    /// pressed: only a press that follows a frame without one toggles.
    pub open spec fn after_escape(self, pressed: bool, now: int) -> GameState {
        let s = if pressed && !self.escape_held {
            self.toggled(now)
        } else {
            self
        };
        GameState { escape_held: pressed, clock: now as i64, ..s }
    }

    /// A spawn is owed when the spawn interval and the time spent paused have
    /// both passed since the last spawn.
    pub open spec fn spawn_due(self, now: int) -> bool {
        &&& !self.paused
        &&& now - spawn_interval_of(self.difficulty as int) - self.pause_offset > self.last_spawn
    }

    /// The state after a spawn at `now`.
    pub open spec fn spawned(self, now: int) -> GameState {
        GameState {
            difficulty: (self.difficulty + SPAWN_DIFFICULTY_GAIN) as i32,
            pause_offset: 0,
            last_spawn: now as i64,
            ..self
        }
    }

    /// Difficulty 1, running, with the spawn clock started at `now`.
    pub open spec fn new_spec(now: int) -> GameState {
        GameState {
            difficulty: 1,
            paused: false,
            escape_held: false,
            clock: now as i64,
            last_spawn: now as i64,
            pause_start: now as i64,
            pause_offset: 0,
        }
    }

    pub fn new(now: i64) -> (r: GameState)
        requires
            0 <= now <= TIME_LIMIT,
        ensures
            r == GameState::new_spec(now as int),
            r.wf(),
    {
        GameState {
            difficulty: 1,
            paused: false,
            escape_held: false,
            clock: now,
            last_spawn: now,
            pause_start: now,
            pause_offset: 0,
        }
    }

    pub fn get_difficulty(&self) -> (r: i32)
        ensures
            r == self.difficulty,
    {
        self.difficulty
    }

    pub fn set_difficulty(&mut self, new_difficulty: i32)
        requires
            new_difficulty >= 0,
        ensures
            *final(self) == (GameState { difficulty: new_difficulty, ..*old(self) }),
    {
        self.difficulty = new_difficulty;
    }

    pub fn add_difficulty(&mut self, difficulty_to_add: i32)
        requires
            0 <= old(self).difficulty + difficulty_to_add <= i32::MAX,
        ensures
            *final(self) == (GameState {
                difficulty: (old(self).difficulty + difficulty_to_add) as i32,
                ..*old(self)
            }),
    {
        self.difficulty = self.difficulty + difficulty_to_add;
    }

    pub fn is_paused(&self) -> (r: bool)
        ensures
            r == self.paused,
    {
        self.paused
    }

    /// Sets the pause flag alone, with no bookkeeping of the spawn clock.
    pub fn set_pause(&mut self, new_state: &bool)
        ensures
            *final(self) == (GameState { paused: *new_state, ..*old(self) }),
    {
        self.paused = *new_state;
    }

    /// Reads the pause key at `now`: a press on the first frame that it is down
    /// toggles the pause and keeps the spawn clock's account of paused time.
    /// Returns whether it toggled.
    pub fn handle_escape(&mut self, pressed: bool, now: i64) -> (r: bool)
        requires
            old(self).wf(),
            old(self).clock <= now <= TIME_LIMIT,
        ensures
            r == (pressed && !old(self).escape_held),
            *final(self) == old(self).after_escape(pressed, now as int),
            final(self).wf(),
    {
        let toggle = pressed && !self.escape_held;
        if toggle {
            if self.paused {
                self.pause_offset = self.pause_offset + (now - self.pause_start);
            }
            self.paused = !self.paused;
            self.pause_start = now;
        }
        self.escape_held = pressed;
        self.clock = now;
        toggle
    }

    pub fn spawn_due_at(&self, now: i64) -> (r: bool)
        requires
            self.wf(),
            self.clock <= now <= TIME_LIMIT,
        ensures
            r == self.spawn_due(now as int),
    {
        !self.paused && now - spawn_interval(self.difficulty) - self.pause_offset > self.last_spawn
    }

    /// Accounts for a spawn at the latest clock reading: difficulty rises and
    /// the spawn clock restarts.
    pub fn record_spawn(&mut self)
        requires
            old(self).wf(),
            old(self).difficulty + SPAWN_DIFFICULTY_GAIN <= i32::MAX,
        ensures
            *final(self) == old(self).spawned(old(self).clock as int),
            final(self).wf(),
    {
        self.add_difficulty(SPAWN_DIFFICULTY_GAIN);
        self.pause_offset = 0;
        self.last_spawn = self.clock;
    }
}

/// Pausing at `t1` and resuming at `t2` delays the next spawn by exactly the
/// length of the pause.
pub proof fn lemma_pause_delays_spawn(s: GameState, t1: int, t2: int, now: int)
    requires
        s.wf(),
        !s.paused,
        s.clock <= t1 <= t2 <= TIME_LIMIT,
    ensures
        !s.toggled(t1).toggled(t2).paused,
        s.toggled(t1).toggled(t2).pause_offset == s.pause_offset + (t2 - t1),
        s.toggled(t1).toggled(t2).spawn_due(now) == s.spawn_due(now - (t2 - t1)),
{
}

} // verus!
