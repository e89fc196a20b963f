//! Entity and grid data model: the player, robots, junk piles, the decorative
//! laser cannon, the engine configuration, and the ghost view of a whole game
//! state together with its well-formedness invariant.

use vstd::prelude::*;

use crate::command::{Command, Event};
use crate::geom::{spec_clamp, Direction, Vec2};

verus! {

/// Grid width of the standard configuration.
pub const FIELD_W: i32 = 36;

/// Grid height of the standard configuration.
pub const FIELD_H: i32 = 36;

/// Robots spawned on the first level of the standard configuration.
pub const ROBOT_COUNT_BASE: i32 = 11;

/// Extra robots per level of the standard configuration.
pub const ROBOT_COUNT_PER_LEVEL: i32 = 5;

/// Energy ceiling of the standard configuration.
pub const ENERGY_MAX: i32 = 100;

/// Energy regained per tick in the standard configuration.
pub const ENERGY_REGEN: i32 = 1;

/// Energy one teleport consumes in the standard configuration.
pub const TELEPORT_COST: i32 = 25;

/// The player: a grid cell plus the energy that gates teleporting.
#[derive(Debug, Default, Clone, Copy, PartialEq, Eq, Structural)]
pub struct Player {
    pub pos: Vec2,
    pub energy: i32,
}

/// One pursuing robot.  `exist` goes false when the robot is destroyed; such
/// robots stay in the list until the end of the tick and are then purged.
#[derive(Debug, Clone, Copy, PartialEq, Eq, Structural)]
pub struct Robot {
    pub pos: Vec2,
    pub exist: bool,
}

/// A junk pile: a cell made permanently impassable for the rest of the level,
/// created only where robots collided with each other.
#[derive(Debug, Clone, Copy, PartialEq, Eq, Structural)]
pub struct Junk {
    pub pos: Vec2,
}

/// A decorative fixed hazard placed near the grid center on each level; the
/// engine positions it but it takes no part in the simulation rules.
#[derive(Debug, Clone, Copy, PartialEq, Eq, Structural)]
pub struct LaserCannon {
    pub pos: Vec2,
    pub turn: i32,
    pub direction: Direction,
}

/// Construction-time parameters of an engine; immutable afterwards.
#[derive(Debug, Clone, Copy, PartialEq, Eq, Structural)]
pub struct Config {
    pub field_w: i32,
    pub field_h: i32,
    pub robot_count_base: i32,
    pub robot_count_per_level: i32,
    pub energy_max: i32,
    pub energy_regen: i32,
    pub teleport_cost: i32,
}

impl Config {
    /// A usable configuration: a grid of at least 4 by 4 — so a level's
    /// robots and the spawn buffer around the player always leave free
    /// cells — and small enough that cell counts fit in `i32`, with
    /// non-negative counts and energy parameters.
    pub open spec fn valid(self) -> bool {
        &&& 4 <= self.field_w <= 10000
        &&& 4 <= self.field_h <= 10000
        &&& 0 <= self.robot_count_base
        &&& 0 <= self.robot_count_per_level
        &&& 0 <= self.energy_max
        &&& 0 <= self.energy_regen
        &&& 0 <= self.teleport_cost
    }

    /// Most robots a level may hold: a quarter of the grid's cells, so that
    /// spawning always finds free cells.
    pub open spec fn spec_robot_count_max(self) -> int {
        self.field_w * self.field_h / 4
    }

    /// The cell the player starts a level on.
    pub open spec fn spec_center(self) -> Vec2 {
        Vec2 { x: (self.field_w / 2) as i32, y: (self.field_h / 2) as i32 }
    }

    /// Runtime grid center, equal to [`Config::spec_center`].
    pub fn center(&self) -> (r: Vec2)
        requires
            self.valid(),
        ensures
            r == self.spec_center(),
    {
        Vec2 { x: self.field_w / 2, y: self.field_h / 2 }
    }

    /// The configuration the original arcade setup uses.
    pub fn standard() -> (r: Config)
        ensures
            r.valid(),
            r == (Config {
                field_w: FIELD_W,
                field_h: FIELD_H,
                robot_count_base: ROBOT_COUNT_BASE,
                robot_count_per_level: ROBOT_COUNT_PER_LEVEL,
                energy_max: ENERGY_MAX,
                energy_regen: ENERGY_REGEN,
                teleport_cost: TELEPORT_COST,
            }),
    {
        Config {
            field_w: FIELD_W,
            field_h: FIELD_H,
            robot_count_base: ROBOT_COUNT_BASE,
            robot_count_per_level: ROBOT_COUNT_PER_LEVEL,
            energy_max: ENERGY_MAX,
            energy_regen: ENERGY_REGEN,
            teleport_cost: TELEPORT_COST,
        }
    }
}

/// Robots a level spawns: `base + level * per_level`, clamped into
/// `[0, robot_count_max]`.
pub open spec fn spec_robot_count(cfg: Config, level: int) -> int {
    spec_clamp(0, cfg.robot_count_base + level * cfg.robot_count_per_level, cfg.spec_robot_count_max())
}

/// Runtime robot count, equal to [`spec_robot_count`]; the raw product is
/// taken in 64 bits so any level number is accepted.
pub fn robot_count(cfg: &Config, level: i32) -> (r: i32)
    requires
        cfg.valid(),
    ensures
        r as int == spec_robot_count(*cfg, level as int),
{
    let base = cfg.robot_count_base as i64;
    let per = cfg.robot_count_per_level as i64;
    let lvl = level as i64;
    proof {
        assert(-4611686018427387904 <= lvl * per <= 4611686018427387904) by (nonlinear_arith)
            requires
                -2147483648 <= lvl <= 2147483647,
                0 <= per <= 2147483647,
        ;
        assert(0 <= (cfg.field_w as int) * (cfg.field_h as int) <= 100000000) by (nonlinear_arith)
            requires
                1 <= cfg.field_w <= 10000,
                1 <= cfg.field_h <= 10000,
        ;
    }
    let raw = base + lvl * per;
    let maxr = (cfg.field_w as i64) * (cfg.field_h as i64) / 4;
    let r = if raw < 0 {
        0
    } else if raw > maxr {
        maxr
    } else {
        raw
    };
    r as i32
}

/// The mathematical state of a whole engine; the view of a `Game`.
#[verifier::ext_equal]
pub ghost struct GameV {
    pub config: Config,
    /// Tick counter; `-1` before the first update.
    pub frame: int,
    /// Pending event tags, appended during updates and drained by the caller.
    pub events: Seq<Event>,
    pub is_over: bool,
    pub is_clear: bool,
    pub level: int,
    /// How many robots the current level started with.
    pub initial_robot_count: int,
    pub player: Player,
    pub robots: Seq<Robot>,
    pub junks: Seq<Junk>,
    pub cannon: LaserCannon,
    /// `Some(log)` when the engine replays a recorded run instead of taking
    /// live input.
    pub replay: Option<Seq<Command>>,
    /// Commands applied so far, appended one per tick while not replaying.
    pub log: Seq<Command>,
}

/// True when a junk pile occupies `p`.
pub open spec fn junk_at(junks: Seq<Junk>, p: Vec2) -> bool {
    exists|i: int| 0 <= i < junks.len() && junks[i].pos == p
}

/// True when every robot in the list is live.
pub open spec fn all_live(robots: Seq<Robot>) -> bool {
    forall|i: int| 0 <= i < robots.len() ==> robots[i].exist
}

impl GameV {
    /// The engine invariant: a valid configuration, every entity on the grid,
    /// junk piles on pairwise distinct cells, and energy within its bounds.
    pub open spec fn wf(self) -> bool {
        &&& self.config.valid()
        &&& self.player.pos.spec_in_bounds(self.config.field_w as int, self.config.field_h as int)
        &&& 0 <= self.player.energy <= self.config.energy_max
        &&& forall|i: int|
            0 <= i < self.robots.len() ==> #[trigger] self.robots[i].pos.spec_in_bounds(
                self.config.field_w as int,
                self.config.field_h as int,
            )
        &&& forall|i: int|
            0 <= i < self.junks.len() ==> #[trigger] self.junks[i].pos.spec_in_bounds(
                self.config.field_w as int,
                self.config.field_h as int,
            )
        &&& forall|i: int, j: int|
            0 <= i < j < self.junks.len() ==> #[trigger] self.junks[i].pos != #[trigger] self.junks[j].pos
        &&& 0 <= self.level
        &&& -1 <= self.frame
        &&& 0 <= self.initial_robot_count
    }
}

} // verus!
