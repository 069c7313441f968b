//! The entity store and its mathematical model: the player, the scrolling
//! pipe obstacles, the static background, and the spawn timer, together with
//! the well-formedness invariants the per-tick systems preserve.
//!
//! Lengths are tenths of a world unit, so the classic tuning constants
//! (gravity 2.1, flap impulse 4.0, scroll speed 1.0 per tick, death at
//! y = -240.0, respawn at y = 70.0, spawn at x = 160.0, exit at x = -170.0)
//! are exact integers.

use vstd::prelude::*;

use crate::timer::{RepeatTimer, TimerModel};

verus! {

/// Gravity pull per tick: 2.1 units.
pub const GRAVITY_DROP: i64 = 21;

/// Upward impulse per tick while the flap signal is active: 4.0 units.
pub const FLAP_IMPULSE: i64 = 40;

/// Horizontal scroll of every pipe per tick: 1.0 unit.
pub const SCROLL_STEP: i64 = 10;

/// Horizontal coordinate at which a pipe pair spawns: 160.0 units, beyond
/// the right edge of the playfield.
pub const X_SPAWN: i64 = 1600;

/// A pipe whose horizontal coordinate falls below this exit threshold of
/// -170.0 units is removed in the same tick.
pub const X_EXIT: i64 = -1700;

/// The player dies on falling below this vertical coordinate: -240.0 units.
pub const Y_DEATH: i64 = -2400;

/// Vertical coordinate the player respawns at after death: 70.0 units.
pub const Y_RESPAWN: i64 = 700;

/// Base vertical offset of the top pipe of a pair: 220.0 units.
pub const TOP_PIPE_BASE: i64 = 2200;

/// Base vertical offset of the bottom pipe of a pair: -200.0 units.
pub const BOTTOM_PIPE_BASE: i64 = -2000;

/// Fixed vertical gap between the two pipes of a pair, whatever the random
/// draw: 420.0 units.
pub const PIPE_GAP: i64 = 4200;

/// The random spawn draw is a whole number of thousandths in [0, 1000),
/// standing for a uniform value in [0, 1); a draw of `d` shifts both pipes
/// of the pair up by `d` tenths of a unit (that is, by `d/1000 * 100.0`).
pub const DRAW_BOUND: u64 = 1000;

/// Interval of the player's animation timer: 0.1 s.
pub const ANIM_INTERVAL_MS: u64 = 100;

/// Interval of the pipe spawn timer: 1.0 s.
pub const SPAWN_INTERVAL_MS: u64 = 1000;

/// Which half of a spawned pair a pipe is.
#[derive(Clone, Copy, Debug, PartialEq, Eq, Structural)]
pub enum PipeRole {
    Top,
    Bottom,
}

/// Mathematical model of the player.
pub ghost struct PlayerModel {
    pub x: int,
    pub y: int,
    pub frame: int,
    pub frame_first: int,
    pub frame_last: int,
    pub anim: TimerModel,
}

impl PlayerModel {
    /// The animation frame index stays within its bounds and the animation
    /// timer is well formed.
    pub open spec fn wf(self) -> bool {
        &&& 0 <= self.frame_first <= self.frame <= self.frame_last
        &&& self.anim.wf()
    }
}

/// Mathematical model of one pipe.
pub ghost struct PipeModel {
    pub x: int,
    pub y: int,
    pub role: PipeRole,
}

impl PipeModel {
    /// A live pipe sits between the exit threshold and the spawn coordinate,
    /// at a vertical offset its role and some draw in [0, DRAW_BOUND) allow.
    pub open spec fn wf(self) -> bool {
        &&& X_EXIT <= self.x <= X_SPAWN as int
        &&& (self.role is Top ==> TOP_PIPE_BASE <= self.y < TOP_PIPE_BASE + DRAW_BOUND)
        &&& (self.role is Bottom ==> BOTTOM_PIPE_BASE <= self.y < BOTTOM_PIPE_BASE + DRAW_BOUND)
    }
}

/// Mathematical model of the whole world.
pub ghost struct WorldModel {
    pub player: PlayerModel,
    pub pipes: Seq<PipeModel>,
    pub background_x: int,
    pub background_y: int,
    pub spawn: TimerModel,
}

impl WorldModel {
    /// The invariant every tick preserves: the player and the spawn timer
    /// are well formed, and so is every pipe.
    pub open spec fn wf(self) -> bool {
        &&& self.player.wf()
        &&& self.spawn.wf()
        &&& forall|i: int| 0 <= i < self.pipes.len() ==> self.pipes[i].wf()
    }
}

/// The player: a singleton entity holding its position, its animation frame
/// index with the frame bounds of the flap animation, and its animation timer.
#[derive(Clone, Copy, Debug)]
pub struct Player {
    pub x: i64,
    pub y: i64,
    pub frame: usize,
    pub frame_first: usize,
    pub frame_last: usize,
    pub anim_timer: RepeatTimer,
}

impl View for Player {
    type V = PlayerModel;

    open spec fn view(&self) -> PlayerModel {
        PlayerModel {
            x: self.x as int,
            y: self.y as int,
            frame: self.frame as int,
            frame_first: self.frame_first as int,
            frame_last: self.frame_last as int,
            anim: self.anim_timer@,
        }
    }
}

/// One pipe of a spawned top/bottom pair.
#[derive(Clone, Copy, Debug)]
pub struct Pipe {
    pub x: i64,
    pub y: i64,
    pub role: PipeRole,
}

impl View for Pipe {
    type V = PipeModel;

    open spec fn view(&self) -> PipeModel {
        PipeModel { x: self.x as int, y: self.y as int, role: self.role }
    }
}

/// The static decorative background: fixed position, no behaviour.
#[derive(Clone, Copy, Debug)]
pub struct Background {
    pub x: i64,
    pub y: i64,
}

/// At even index `i`, the pipe store holds a spawned pair: a top pipe
/// followed by its bottom pipe, at the same x-coordinate and separated by
/// the fixed vertical gap.
pub open spec fn pair_at(pipes: Seq<PipeModel>, i: int) -> bool {
    &&& i + 1 < pipes.len()
    &&& pipes[i].role is Top
    &&& pipes[i + 1].role is Bottom
    &&& pipes[i].x == pipes[i + 1].x
    &&& pipes[i].y - pipes[i + 1].y == PIPE_GAP
}

/// The pipe store consists entirely of top/bottom pairs spawned together:
/// pipes come in twos, each two being a pair.
pub open spec fn paired(pipes: Seq<PipeModel>) -> bool {
    &&& pipes.len() % 2 == 0
    &&& forall|i: int| 0 <= i < pipes.len() && i % 2 == 0 ==> pair_at(pipes, i)
}

/// The models of a sequence of pipes, element for element.
pub open spec fn pipes_view(v: Seq<Pipe>) -> Seq<PipeModel> {
    Seq::new(v.len(), |i: int| v[i]@)
}

/// The world: the one mutable entity store all per-tick systems share.
pub struct World {
    pub player: Player,
    pub pipes: Vec<Pipe>,
    pub background: Background,
    pub spawn_timer: RepeatTimer,
}

impl View for World {
    type V = WorldModel;

    open spec fn view(&self) -> WorldModel {
        WorldModel {
            player: self.player@,
            pipes: pipes_view(self.pipes@),
            background_x: self.background.x as int,
            background_y: self.background.y as int,
            spawn: self.spawn_timer@,
        }
    }
}

/// The model of a freshly initialised world: the player at the origin on the
/// first frame of a three-frame flap animation, no pipes, and both timers at
/// the start of their intervals.
pub open spec fn init_model() -> WorldModel {
    WorldModel {
        player: PlayerModel {
            x: 0,
            y: 0,
            frame: 0,
            frame_first: 0,
            frame_last: 2,
            anim: TimerModel { interval: ANIM_INTERVAL_MS as int, elapsed: 0 },
        },
        pipes: Seq::empty(),
        background_x: 0,
        background_y: 0,
        spawn: TimerModel { interval: SPAWN_INTERVAL_MS as int, elapsed: 0 },
    }
}

impl World {
    pub open spec fn wf(self) -> bool {
        self@.wf()
    }

    /// Initialise the world exactly as the game starts.
    pub fn new() -> (w: World)
        ensures
            w.wf(),
            w@ == init_model(),
    {
        let w = World {
            player: Player {
                x: 0,
                y: 0,
                frame: 0,
                frame_first: 0,
                frame_last: 2,
                anim_timer: RepeatTimer::new(ANIM_INTERVAL_MS),
            },
            pipes: Vec::new(),
            background: Background { x: 0, y: 0 },
            spawn_timer: RepeatTimer::new(SPAWN_INTERVAL_MS),
        };
        proof {
            assert(w@.pipes =~= init_model().pipes);
            assert(w@ =~= init_model());
        }
        w
    }
}

} // verus!
