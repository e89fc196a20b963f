//! The mathematical model of one tick: spec functions for every phase of an
//! update, composed into [`tick`], plus the [`Oracle`] that stands for the
//! values the random source supplies during that tick.

use vstd::prelude::*;

use crate::command::{Command, Event};
use crate::geom::{direction_offset, spec_clamp, spec_sign, Direction, Vec2};
use crate::state::{junk_at, spec_robot_count, Config, GameV, Junk, LaserCannon, Player, Robot};

verus! {

/// The random values one tick may consume: a teleport target, the robot
/// placement of a level start, and the cannon cell of a level start.  A tick
/// reads only the parts its command calls for.
pub ghost struct Oracle {
    pub teleport_to: Vec2,
    pub spawn: Seq<Robot>,
    pub cannon_pos: Vec2,
}

/// True when `p` lies in the 3-by-3 block around `c`: spawning rejects such
/// cells so no robot starts next to the player.
pub open spec fn near(p: Vec2, c: Vec2) -> bool {
    -1 <= p.x - c.x <= 1 && -1 <= p.y - c.y <= 1
}

/// A legal outcome of spawning for `level`: the level's robot count, every
/// robot live, on the grid, away from the cell the player occupies, and no
/// two robots on one cell.
pub open spec fn valid_spawn(spawn: Seq<Robot>, cfg: Config, level: int, avoid: Vec2) -> bool {
    &&& spawn.len() == spec_robot_count(cfg, level)
    &&& forall|i: int|
        0 <= i < spawn.len() ==> (#[trigger] spawn[i]).exist && spawn[i].pos.spec_in_bounds(
            cfg.field_w as int,
            cfg.field_h as int,
        ) && !near(spawn[i].pos, avoid)
    &&& forall|i: int, j: int| 0 <= i < j < spawn.len() ==> spawn[i].pos != spawn[j].pos
}

/// A legal cannon cell: within the centered half-width, half-height block the
/// placement draws from.
pub open spec fn valid_cannon(p: Vec2, cfg: Config) -> bool {
    &&& cfg.field_w / 2 - cfg.field_w / 4 <= p.x <= cfg.field_w / 2 + cfg.field_w / 4
    &&& if cfg.field_h / 4 > 0 {
        cfg.field_h / 2 - cfg.field_h / 4 <= p.y <= cfg.field_h / 2 + cfg.field_h / 4 - 1
    } else {
        p.y == cfg.field_h / 2
    }
}

impl Oracle {
    /// What the tick's contract may assume of the supplied random values.
    pub open spec fn valid_for(self, v: GameV, c: Command) -> bool {
        &&& self.teleport_to.spec_in_bounds(v.config.field_w as int, v.config.field_h as int)
        &&& valid_cannon(self.cannon_pos, v.config)
        &&& (!v.is_over && v.is_clear && effective_command(v, c) == Command::NextLevel)
            ==> valid_spawn(self.spawn, v.config, v.level + 1, v.config.spec_center())
    }
}

/// The command a tick applies: the tick-indexed replay entry while a replay
/// is loaded and not yet exhausted, the live command otherwise.
pub open spec fn effective_command(v: GameV, c: Command) -> Command {
    match v.replay {
        Option::Some(rlog) => if 0 <= v.frame + 1 < rlog.len() {
            rlog[v.frame + 1]
        } else {
            c
        },
        Option::None => c,
    }
}

/// Tick bookkeeping: the counter advances, and while not replaying the live
/// command is appended to the outgoing log.
pub open spec fn bookkept(v: GameV, c: Command) -> GameV {
    GameV {
        frame: v.frame + 1,
        log: match v.replay {
            Option::Some(_) => v.log,
            Option::None => v.log.push(c),
        },
        ..v
    }
}

/// Energy regeneration: one tick's gain, saturating at the configured
/// ceiling.
pub open spec fn after_regen(v: GameV) -> GameV {
    let e = if v.player.energy + v.config.energy_regen > v.config.energy_max {
        v.config.energy_max
    } else {
        (v.player.energy + v.config.energy_regen) as i32
    };
    GameV { player: Player { pos: v.player.pos, energy: e }, ..v }
}

/// The cell one step in direction `d` from `p`.
pub open spec fn move_target(p: Vec2, d: Direction) -> Vec2 {
    Vec2 {
        x: (p.x + direction_offset(d).x) as i32,
        y: (p.y + direction_offset(d).y) as i32,
    }
}

/// A directional move: rejected with an `Invalid` event when the target is
/// off the grid or holds junk, otherwise the player steps there.  Robots are
/// no obstacle to the player — walking into one is the loss condition.
pub open spec fn after_move(v: GameV, d: Direction) -> GameV {
    let t = move_target(v.player.pos, d);
    if t.spec_in_bounds(v.config.field_w as int, v.config.field_h as int) && !junk_at(v.junks, t) {
        GameV { player: Player { pos: t, energy: v.player.energy }, ..v }
    } else {
        GameV { events: v.events.push(Event::Invalid), ..v }
    }
}

/// A teleport: with enough energy the cost is deducted and the player lands
/// on the supplied cell (junk and robots included); otherwise an `Invalid`
/// event is the only effect.
pub open spec fn after_teleport(v: GameV, t: Vec2) -> GameV {
    if v.player.energy >= v.config.teleport_cost {
        GameV {
            player: Player {
                pos: t,
                energy: (v.player.energy - v.config.teleport_cost) as i32,
            },
            events: v.events.push(Event::Teleport),
            ..v
        }
    } else {
        GameV { events: v.events.push(Event::Invalid), ..v }
    }
}

/// The player-command phase of a tick.
pub open spec fn dispatched(v: GameV, c: Command, teleport_to: Vec2) -> GameV {
    match c {
        Command::Left => after_move(v, Direction::Left),
        Command::Right => after_move(v, Direction::Right),
        Command::Down => after_move(v, Direction::Down),
        Command::Up => after_move(v, Direction::Up),
        Command::UpLeft => after_move(v, Direction::UpLeft),
        Command::UpRight => after_move(v, Direction::UpRight),
        Command::DownLeft => after_move(v, Direction::DownLeft),
        Command::DownRight => after_move(v, Direction::DownRight),
        Command::Teleport => after_teleport(v, teleport_to),
        Command::Noop => v,
        Command::Wait => v,
        Command::NextLevel => v,
    }
}

/// One chase step of a robot at `r` toward the player at `p`: each axis moves
/// by the sign of its difference, clamped to the grid.
pub open spec fn chase_step(p: Vec2, r: Vec2, cfg: Config) -> Vec2 {
    Vec2 {
        x: spec_clamp(0, r.x + spec_sign(p.x - r.x), cfg.field_w - 1) as i32,
        y: spec_clamp(0, r.y + spec_sign(p.y - r.y), cfg.field_h - 1) as i32,
    }
}

/// The robot-advance phase: every robot takes one chase step.
pub open spec fn after_robots(v: GameV) -> GameV {
    GameV {
        robots: v.robots.map(
            |i: int, r: Robot| Robot { pos: chase_step(v.player.pos, r.pos, v.config), exist: r.exist },
        ),
        ..v
    }
}

/// True when some robot, live or destroyed this tick, occupies `p`.
pub open spec fn any_robot_on(robots: Seq<Robot>, p: Vec2) -> bool {
    exists|i: int| 0 <= i < robots.len() && robots[i].pos == p
}

/// The loss check, evaluated before collision resolution so that several
/// robots reaching the player at once still lose the level.
pub open spec fn after_gameover(v: GameV) -> GameV {
    if any_robot_on(v.robots, v.player.pos) {
        GameV { is_over: true, events: v.events.push(Event::Crash), ..v }
    } else {
        v
    }
}

/// True when live robot `i` is destroyed this tick: it stands on junk, or it
/// shares its cell with another live robot.  All coincidences count as
/// simultaneous, judged against the one post-move state.
pub open spec fn robot_dies(robots: Seq<Robot>, junks: Seq<Junk>, i: int) -> bool {
    robots[i].exist && (junk_at(junks, robots[i].pos) || exists|j: int|
        0 <= j < robots.len() && j != i && robots[j].exist && robots[j].pos == robots[i].pos)
}

/// The robot list after collision resolution: destroyed robots keep their
/// place but lose their liveness flag.
pub open spec fn resolve_robots(robots: Seq<Robot>, junks: Seq<Junk>) -> Seq<Robot> {
    robots.map(
        |i: int, r: Robot| Robot { pos: r.pos, exist: r.exist && !robot_dies(robots, junks, i) },
    )
}

/// The junk piles a collision pass adds: one per distinct cell where live
/// robots collided, unless the cell already held junk, ordered by the cell's
/// first robot.
pub open spec fn new_junks(robots: Seq<Robot>, junks: Seq<Junk>, n: int) -> Seq<Junk>
    decreases n,
{
    if n <= 0 {
        Seq::empty()
    } else {
        let rest = new_junks(robots, junks, n - 1);
        if pair_collides(robots, n - 1) && first_at_cell(robots, n - 1) && !junk_at(
            junks,
            robots[n - 1].pos,
        ) {
            rest.push(Junk { pos: robots[n - 1].pos })
        } else {
            rest
        }
    }
}

/// True when live robot `i` shares its cell with another live robot.
pub open spec fn pair_collides(robots: Seq<Robot>, i: int) -> bool {
    robots[i].exist && exists|j: int|
        0 <= j < robots.len() && j != i && robots[j].exist && robots[j].pos == robots[i].pos
}

/// True when no earlier live robot stands on robot `i`'s cell.
pub open spec fn first_at_cell(robots: Seq<Robot>, i: int) -> bool {
    forall|k: int| 0 <= k < i ==> !(robots[k].exist && robots[k].pos == robots[i].pos)
}

/// How many of the first `n` robots are destroyed this tick.
pub open spec fn death_count(robots: Seq<Robot>, junks: Seq<Junk>, n: int) -> int
    decreases n,
{
    if n <= 0 {
        0
    } else {
        death_count(robots, junks, n - 1) + if robot_dies(robots, junks, n - 1) {
            1int
        } else {
            0int
        }
    }
}

/// A death count is never negative.
pub proof fn lemma_death_count_nonneg(robots: Seq<Robot>, junks: Seq<Junk>, n: int)
    ensures
        0 <= death_count(robots, junks, n),
    decreases n,
{
    if n > 0 {
        lemma_death_count_nonneg(robots, junks, n - 1);
    }
}

/// `n` copies of the `Hit` event.
pub open spec fn hit_events(n: int) -> Seq<Event> {
    Seq::new(n as nat, |i: int| Event::Hit)
}

/// The collision-resolution phase: destroyed robots lose their flag, each
/// colliding cell gains one junk pile, and one `Hit` event per destroyed
/// robot is emitted.
pub open spec fn after_collision(v: GameV) -> GameV {
    GameV {
        robots: resolve_robots(v.robots, v.junks),
        junks: v.junks + new_junks(v.robots, v.junks, v.robots.len() as int),
        events: v.events + hit_events(death_count(v.robots, v.junks, v.robots.len() as int)),
        ..v
    }
}

/// True when no live robot remains.
pub open spec fn no_live_robot(robots: Seq<Robot>) -> bool {
    forall|i: int| 0 <= i < robots.len() ==> !(#[trigger] robots[i]).exist
}

/// The clear check: with no live robot left the level is clear and a `Win`
/// event is emitted.
pub open spec fn after_clear(v: GameV) -> GameV {
    if no_live_robot(v.robots) {
        GameV { is_clear: true, events: v.events.push(Event::Win), ..v }
    } else {
        v
    }
}

/// The live robots of a list, in order.
pub open spec fn live_robots(robots: Seq<Robot>) -> Seq<Robot> {
    robots.filter(|r: Robot| r.exist)
}

/// End-of-tick compaction: destroyed robots leave the list.
pub open spec fn after_purge(v: GameV) -> GameV {
    GameV { robots: live_robots(v.robots), ..v }
}

/// A level start: flags reset, the next level's robot population spawned,
/// junk cleared, the player at the grid center with its energy kept, and the
/// cannon placed.  The tick counter, event queue and logs carry over.
pub open spec fn level_start(v: GameV, spawn: Seq<Robot>, cannon_pos: Vec2) -> GameV {
    GameV {
        is_over: false,
        is_clear: false,
        level: v.level + 1,
        initial_robot_count: spec_robot_count(v.config, v.level + 1),
        player: Player { pos: v.config.spec_center(), energy: v.player.energy },
        robots: spawn,
        junks: Seq::empty(),
        cannon: LaserCannon { pos: cannon_pos, turn: 0, direction: Direction::Right },
        ..v
    }
}

/// The state a fresh engine holds before its first level is spawned.
pub open spec fn initial_state(cfg: Config) -> GameV {
    GameV {
        config: cfg,
        frame: -1,
        events: Seq::empty(),
        is_over: false,
        is_clear: false,
        level: 0,
        initial_robot_count: 0,
        player: Player { pos: Vec2 { x: 0, y: 0 }, energy: 0 },
        robots: Seq::empty(),
        junks: Seq::empty(),
        cannon: LaserCannon { pos: Vec2 { x: 0, y: 0 }, turn: 0, direction: Direction::Up },
        replay: Option::None,
        log: Seq::empty(),
    }
}

/// One whole tick: bookkeeping always happens; a lost game ignores its
/// command; a clear level reacts only to `NextLevel`; otherwise energy
/// regenerates, the command is dispatched, robots advance, and the loss,
/// collision and clear checks run in that order before compaction.
pub open spec fn tick(v: GameV, c: Command, o: Oracle) -> GameV {
    let ce = effective_command(v, c);
    let v1 = bookkept(v, c);
    if v.is_over {
        v1
    } else if v.is_clear {
        if ce == Command::NextLevel {
            level_start(v1, o.spawn, o.cannon_pos)
        } else {
            v1
        }
    } else {
        after_purge(
            after_clear(
                after_collision(after_gameover(after_robots(dispatched(after_regen(v1), ce, o.teleport_to)))),
            ),
        )
    }
}

/// A whole run: ticks folded over a command sequence with its oracle
/// sequence.
pub open spec fn run(v: GameV, cs: Seq<Command>, os: Seq<Oracle>) -> GameV
    decreases cs.len(),
{
    if cs.len() == 0 {
        v
    } else {
        run(tick(v, cs[0], os[0]), cs.drop_first(), os.drop_first())
    }
}

} // verus!
