//! The simulation engine: the `Game` state and the per-tick update
//! algorithm, each phase verified against its spec-level counterpart in
//! [`crate::step`].

use rand::rngs::StdRng;
use vstd::prelude::*;

use crate::command::{Command, Event};
use crate::laws::{lemma_tick_all_live, lemma_tick_preserves_wf};
use crate::geom::{Direction, Vec2};
use crate::rng::{rng_from_seed, rng_gen_range};
use crate::state::{
    all_live, junk_at, robot_count, spec_robot_count, Config, GameV, Junk, LaserCannon, Player,
    Robot,
};
use crate::step::{
    after_clear, after_collision, after_gameover, after_move, after_purge, after_regen,
    after_robots, after_teleport, any_robot_on, chase_step, death_count, first_at_cell,
    bookkept, dispatched, effective_command, hit_events, initial_state,
    lemma_death_count_nonneg, level_start, near, new_junks, no_live_robot, pair_collides,
    resolve_robots, robot_dies, tick, valid_cannon, valid_spawn, Oracle,
};

verus! {

/// One engine instance: grid, entities, flags, energy, the seeded random
/// source, the pending event queue, and the replay/log state.
pub struct Game {
    /// The seeded random source; determinism of a run rests on its stream
    /// being a fixed function of the seed.
    pub rng: StdRng,
    pub config: Config,
    /// Tick counter; `-1` before the first update.
    pub frame: i32,
    /// Pending event tags, drained by the caller after each tick.
    pub requested_sounds: Vec<Event>,
    pub is_over: bool,
    pub is_clear: bool,
    pub level: i32,
    pub initial_robot_count: i32,
    pub player: Player,
    pub robots: Vec<Robot>,
    pub junks: Vec<Junk>,
    pub laser_cannon: LaserCannon,
    /// `Some(log)` puts the engine in replay mode.
    pub replay: Option<Vec<Command>>,
    /// Commands applied so far, one per tick, while not replaying.
    pub log: Vec<Command>,
}

impl View for Game {
    type V = GameV;

    open spec fn view(&self) -> GameV {
        GameV {
            config: self.config,
            frame: self.frame as int,
            events: self.requested_sounds@,
            is_over: self.is_over,
            is_clear: self.is_clear,
            level: self.level as int,
            initial_robot_count: self.initial_robot_count as int,
            player: self.player,
            robots: self.robots@,
            junks: self.junks@,
            cannon: self.laser_cannon,
            replay: match self.replay {
                Option::Some(ref l) => Option::Some(l@),
                Option::None => Option::None,
            },
            log: self.log@,
        }
    }
}

/// An upper bound on how many integers below `v` lie within one of `c`:
/// spawning skips at most three cells per buffered row and at most three
/// buffered rows.
spec fn near_cap(c: int, v: int) -> int {
    if v <= c - 1 {
        0
    } else if v <= c {
        1
    } else if v <= c + 1 {
        2
    } else {
        3
    }
}

impl Game {
    /// True when a junk pile occupies `(x, y)`.
    pub fn is_junk(&self, x: i32, y: i32) -> (r: bool)
        ensures
            r == junk_at(self@.junks, Vec2 { x, y }),
    {
        let mut i: usize = 0;
        while i < self.junks.len()
            invariant
                i <= self.junks@.len(),
                forall|k: int| 0 <= k < i ==> self.junks@[k].pos != (Vec2 { x, y }),
            decreases self.junks@.len() - i,
        {
            if self.junks[i].pos.x == x && self.junks[i].pos.y == y {
                return true;
            }
            i = i + 1;
        }
        false
    }

    /// Switches the engine to replay mode: from the next tick on, commands
    /// come from `rlog` until it is exhausted, and nothing is logged.
    pub fn load_replay(&mut self, rlog: Vec<Command>)
        ensures
            final(self)@ == (GameV { replay: Option::Some(rlog@), ..old(self)@ }),
    {
        self.replay = Option::Some(rlog);
    }

    /// Hands out the pending event queue and clears it.
    pub fn take_events(&mut self) -> (r: Vec<Event>)
        ensures
            r@ == old(self)@.events,
            final(self)@ == (GameV { events: Seq::empty(), ..old(self)@ }),
    {
        let r = self.requested_sounds.clone();
        self.requested_sounds = Vec::new();
        proof {
            assert(r@ =~= old(self)@.events);
        }
        r
    }

    /// The commands applied so far, one per tick, while not replaying.
    pub fn command_log(&self) -> (r: &Vec<Command>)
        ensures
            r@ == self@.log,
    {
        &self.log
    }

    /// Energy regeneration, the first phase of a live tick.
    fn regen_energy(&mut self)
        requires
            old(self)@.wf(),
        ensures
            final(self)@ == after_regen(old(self)@),
    {
        if self.player.energy > self.config.energy_max - self.config.energy_regen {
            self.player.energy = self.config.energy_max;
        } else {
            self.player.energy = self.player.energy + self.config.energy_regen;
        }
    }

    /// A directional move: one cell, rejected with an `Invalid` event when
    /// the target is off the grid or junk; robots do not block the player.
    pub fn move_player(&mut self, direction: Direction)
        requires
            old(self)@.wf(),
        ensures
            final(self)@ == after_move(old(self)@, direction),
    {
        let v = direction.to_vec2();
        let x = self.player.pos.x + v.x;
        let y = self.player.pos.y + v.y;
        if 0 <= x && x < self.config.field_w && 0 <= y && y < self.config.field_h {
            if self.is_junk(x, y) {
                self.requested_sounds.push(Event::Invalid);
                return;
            }
            self.player.pos.x = x;
            self.player.pos.y = y;
        } else {
            self.requested_sounds.push(Event::Invalid);
        }
    }

    /// A teleport: with enough energy the player lands on a uniformly random
    /// cell and pays the cost; otherwise only an `Invalid` event is emitted.
    pub fn teleport(&mut self)
        requires
            old(self)@.wf(),
        ensures
            exists|t: Vec2|
                t.spec_in_bounds(
                    old(self)@.config.field_w as int,
                    old(self)@.config.field_h as int,
                ) && final(self)@ == after_teleport(old(self)@, t),
    {
        if self.player.energy >= self.config.teleport_cost {
            let x = rng_gen_range(&mut self.rng, 0, self.config.field_w);
            let y = rng_gen_range(&mut self.rng, 0, self.config.field_h);
            self.player.pos.x = x;
            self.player.pos.y = y;
            self.player.energy = self.player.energy - self.config.teleport_cost;
            self.requested_sounds.push(Event::Teleport);
            proof {
                let t = Vec2 { x, y };
                assert(t.spec_in_bounds(
                    old(self)@.config.field_w as int,
                    old(self)@.config.field_h as int,
                ) && self@ == after_teleport(old(self)@, t));
            }
        } else {
            self.requested_sounds.push(Event::Invalid);
            proof {
                let t = old(self)@.config.spec_center();
                assert(t.spec_in_bounds(
                    old(self)@.config.field_w as int,
                    old(self)@.config.field_h as int,
                ) && self@ == after_teleport(old(self)@, t));
            }
        }
    }

    /// The robot-advance phase: every robot takes one chase step toward the
    /// player, each axis moving by the sign of its difference, clamped to
    /// the grid.
    pub fn move_robots(&mut self)
        requires
            old(self)@.wf(),
        ensures
            final(self)@ == after_robots(old(self)@),
    {
        let mut moved: Vec<Robot> = Vec::new();
        let mut i: usize = 0;
        while i < self.robots.len()
            invariant
                old(self)@.wf(),
                i <= self.robots@.len(),
                self@ == old(self)@,
                moved@.len() == i,
                forall|k: int|
                    0 <= k < i ==> moved@[k] == (Robot {
                        pos: chase_step(old(self)@.player.pos, old(self)@.robots[k].pos, old(self)@.config),
                        exist: old(self)@.robots[k].exist,
                    }),
            decreases self.robots@.len() - i,
        {
            let r = self.robots[i];
            proof {
                assert(old(self)@.robots[i as int].pos.spec_in_bounds(
                    old(self)@.config.field_w as int,
                    old(self)@.config.field_h as int,
                ));
            }
            let dx = self.player.pos.x - r.pos.x;
            let vx: i32 = if dx > 0 { 1 } else if dx < 0 { -1 } else { 0 };
            let dy = self.player.pos.y - r.pos.y;
            let vy: i32 = if dy > 0 { 1 } else if dy < 0 { -1 } else { 0 };
            let mut nx = r.pos.x + vx;
            if nx < 0 { nx = 0; }
            if nx > self.config.field_w - 1 { nx = self.config.field_w - 1; }
            let mut ny = r.pos.y + vy;
            if ny < 0 { ny = 0; }
            if ny > self.config.field_h - 1 { ny = self.config.field_h - 1; }
            moved.push(Robot { pos: Vec2 { x: nx, y: ny }, exist: r.exist });
            i = i + 1;
        }
        self.robots = moved;
        proof {
            assert(self@.robots =~= after_robots(old(self)@).robots);
            assert(self@ =~= after_robots(old(self)@));
        }
    }

    /// The loss check: a robot on the player's cell ends the level with a
    /// `Crash` event.  It runs before collision resolution so that robots
    /// arriving together still register the loss.
    pub fn check_gameover(&mut self)
        ensures
            final(self)@ == after_gameover(old(self)@),
    {
        let mut i: usize = 0;
        while i < self.robots.len()
            invariant
                i <= self.robots@.len(),
                self@ == old(self)@,
                forall|k: int| 0 <= k < i ==> old(self)@.robots[k].pos != old(self)@.player.pos,
            decreases self.robots@.len() - i,
        {
            if self.robots[i].pos == self.player.pos {
                self.is_over = true;
                self.requested_sounds.push(Event::Crash);
                proof {
                    assert(any_robot_on(old(self)@.robots, old(self)@.player.pos));
                }
                return;
            }
            i = i + 1;
        }
        proof {
            assert(!any_robot_on(old(self)@.robots, old(self)@.player.pos));
        }
    }

    /// The clear check: with no live robot left, the level is clear and a
    /// `Win` event is emitted.
    pub fn check_clear(&mut self)
        ensures
            final(self)@ == after_clear(old(self)@),
    {
        let mut i: usize = 0;
        while i < self.robots.len()
            invariant
                i <= self.robots@.len(),
                self@ == old(self)@,
                forall|k: int| 0 <= k < i ==> !old(self)@.robots[k].exist,
            decreases self.robots@.len() - i,
        {
            if self.robots[i].exist {
                proof {
                    assert(!no_live_robot(old(self)@.robots));
                }
                return;
            }
            i = i + 1;
        }
        self.is_clear = true;
        self.requested_sounds.push(Event::Win);
        proof {
            assert(no_live_robot(old(self)@.robots));
        }
    }

    /// Collision resolution: every live robot standing on junk or sharing a
    /// cell with another live robot is destroyed, each distinct colliding
    /// cell gains one junk pile, and a `Hit` event is emitted per destroyed
    /// robot.  All coincidences are judged against the one post-move state.
    pub fn check_robots_collision(&mut self)
        ensures
            final(self)@ == after_collision(old(self)@),
    {
        let n = self.robots.len();
        let mut dies: Vec<bool> = Vec::new();
        let mut mk: Vec<bool> = Vec::new();
        let mut i: usize = 0;
        while i < n
            invariant
                self@ == old(self)@,
                n == self.robots@.len(),
                i <= n,
                dies@.len() == i,
                mk@.len() == i,
                forall|k: int| 0 <= k < i ==> dies@[k] == robot_dies(self@.robots, self@.junks, k),
                forall|k: int|
                    0 <= k < i ==> mk@[k] == (pair_collides(self@.robots, k) && first_at_cell(
                        self@.robots,
                        k,
                    ) && !junk_at(self@.junks, self@.robots[k].pos)),
            decreases n - i,
        {
            let r = self.robots[i];
            let mut pair = false;
            let mut j: usize = 0;
            while j < n
                invariant
                    j <= n,
                    n == self.robots@.len(),
                    self@ == old(self)@,
                    r == self@.robots[i as int],
                    i < n,
                    pair ==> exists|l: int|
                        0 <= l < j && l != i && self@.robots[l].exist && self@.robots[l].pos
                            == self@.robots[i as int].pos,
                    !pair ==> forall|l: int|
                        0 <= l < j ==> !(l != i && self@.robots[l].exist && self@.robots[l].pos
                            == self@.robots[i as int].pos),
                decreases n - j,
            {
                if j != i && self.robots[j].exist && self.robots[j].pos == r.pos {
                    pair = true;
                }
                j = j + 1;
            }
            let junk_hit = self.is_junk(r.pos.x, r.pos.y);
            let mut first = true;
            let mut k: usize = 0;
            while k < i
                invariant
                    k <= i,
                    i < n,
                    n == self.robots@.len(),
                    self@ == old(self)@,
                    r == self@.robots[i as int],
                    first ==> forall|l: int|
                        0 <= l < k ==> !(self@.robots[l].exist && self@.robots[l].pos
                            == self@.robots[i as int].pos),
                    !first ==> !first_at_cell(self@.robots, i as int),
                decreases i - k,
            {
                if self.robots[k].exist && self.robots[k].pos == r.pos {
                    first = false;
                }
                k = k + 1;
            }
            dies.push(r.exist && (junk_hit || pair));
            mk.push(r.exist && pair && first && !junk_hit);
            i = i + 1;
        }
        let ghost rs = old(self)@.robots;
        let ghost js = old(self)@.junks;
        let mut newbots: Vec<Robot> = Vec::new();
        let mut i: usize = 0;
        while i < n
            invariant
                n == self.robots@.len(),
                rs == self.robots@,
                js == self.junks@,
                i <= n,
                dies@.len() == n,
                mk@.len() == n,
                forall|k: int| 0 <= k < n ==> dies@[k] == robot_dies(rs, js, k),
                forall|k: int|
                    0 <= k < n ==> mk@[k] == (pair_collides(rs, k) && first_at_cell(rs, k)
                        && !junk_at(js, rs[k].pos)),
                newbots@.len() == i,
                forall|k: int|
                    0 <= k < i ==> newbots@[k] == (Robot {
                        pos: rs[k].pos,
                        exist: rs[k].exist && !robot_dies(rs, js, k),
                    }),
                self.requested_sounds@ == old(self)@.events + hit_events(death_count(rs, js, i as int)),
                self@ == (GameV { events: self@.events, ..old(self)@ }),
            decreases n - i,
        {
            proof {
                lemma_death_count_nonneg(rs, js, i as int);
                lemma_death_count_nonneg(rs, js, i + 1);
            }
            let r = self.robots[i];
            if dies[i] {
                newbots.push(Robot { pos: r.pos, exist: false });
                self.requested_sounds.push(Event::Hit);
                proof {
                    assert(self.requested_sounds@ =~= old(self)@.events + hit_events(
                        death_count(rs, js, i + 1),
                    ));
                }
            } else {
                newbots.push(r);
                proof {
                    assert(newbots@[i as int] == (Robot {
                        pos: rs[i as int].pos,
                        exist: rs[i as int].exist && !robot_dies(rs, js, i as int),
                    }));
                }
            }
            i = i + 1;
        }
        self.robots = newbots;
        proof {
            assert(self@.robots =~= resolve_robots(rs, js));
        }
        let ghost ev_mid = self@.events;
        let mut i: usize = 0;
        while i < n
            invariant
                i <= n,
                n == rs.len(),
                dies@.len() == n,
                mk@.len() == n,
                forall|k: int|
                    0 <= k < n ==> mk@[k] == (pair_collides(rs, k) && first_at_cell(rs, k)
                        && !junk_at(js, rs[k].pos)),
                self@.robots == resolve_robots(rs, js),
                self.junks@ == js + new_junks(rs, js, i as int),
                self@ == (GameV { junks: self@.junks, robots: self@.robots, events: ev_mid, ..old(self)@ }),
            decreases n - i,
        {
            proof {
                assert(mk@[i as int] == (pair_collides(rs, i as int) && first_at_cell(
                    rs,
                    i as int,
                ) && !junk_at(js, rs[i as int].pos)));
                assert(self@.robots[i as int].pos == rs[i as int].pos);
            }
            if mk[i] {
                self.junks.push(Junk { pos: self.robots[i].pos });
                proof {
                    assert(self.junks@ =~= js + new_junks(rs, js, i + 1));
                }
            }
            i = i + 1;
        }
        proof {
            assert(self@ =~= after_collision(old(self)@));
        }
    }

    /// End-of-tick compaction: destroyed robots leave the list.
    fn purge_robots(&mut self)
        ensures
            final(self)@ == after_purge(old(self)@),
    {
        let mut kept: Vec<Robot> = Vec::new();
        let mut i: usize = 0;
        while i < self.robots.len()
            invariant
                i <= self.robots@.len(),
                self@ == old(self)@,
                kept@ == old(self)@.robots.take(i as int).filter(|r: Robot| r.exist),
            decreases self.robots@.len() - i,
        {
            let s: Ghost<Seq<Robot>> = Ghost(old(self)@.robots);
            proof {
                reveal(Seq::filter);
                assert(s@.take(i + 1).drop_last() =~= s@.take(i as int));
                assert(s@.take(i + 1).last() == s@[i as int]);
            }
            if self.robots[i].exist {
                kept.push(self.robots[i]);
            }
            i = i + 1;
        }
        proof {
            reveal(Seq::filter);
            assert(old(self)@.robots.take(self.robots@.len() as int) =~= old(self)@.robots);
        }
        self.robots = kept;
        proof {
            assert(self@ =~= after_purge(old(self)@));
        }
    }

    /// Spawns the current level's robot population: each robot lands on a
    /// cell drawn uniformly at random from the free cells, where a cell is
    /// free when it is outside the 3-by-3 block around the player and no
    /// earlier robot took it.  The level's robot cap of a quarter of the
    /// grid guarantees enough free cells.
    pub fn spawn_robots(&mut self)
        requires
            old(self)@.wf(),
        ensures
            valid_spawn(
                final(self)@.robots,
                old(self)@.config,
                old(self)@.level,
                old(self)@.player.pos,
            ),
            final(self)@ == (GameV {
                robots: final(self)@.robots,
                initial_robot_count: spec_robot_count(old(self)@.config, old(self)@.level),
                ..old(self)@
            }),
    {
        let count = robot_count(&self.config, self.level);
        self.initial_robot_count = count;
        self.robots = Vec::new();
        let w = self.config.field_w;
        let h = self.config.field_h;
        let px = self.player.pos.x;
        let py = self.player.pos.y;
        let ghost ppos = old(self)@.player.pos;
        let mut candidates: Vec<Vec2> = Vec::new();
        let ghost mut visited: int = 0;
        let ghost mut skipped: int = 0;
        let mut x: i32 = 0;
        while x < w
            invariant
                0 <= x <= w,
                4 <= w <= 10000,
                4 <= h <= 10000,
                0 <= px < w,
                0 <= py < h,
                ppos == (Vec2 { x: px, y: py }),
                visited == x * h,
                candidates@.len() == visited - skipped,
                0 <= skipped,
                skipped <= 3 * near_cap(px as int, x as int),
                forall|k: int|
                    0 <= k < candidates@.len() ==> (#[trigger] candidates@[k]).spec_in_bounds(
                        w as int,
                        h as int,
                    ) && !near(candidates@[k], ppos),
                forall|k: int| 0 <= k < candidates@.len() ==> (#[trigger] candidates@[k]).x < x,
                forall|k: int, l: int|
                    0 <= k < l < candidates@.len() ==> candidates@[k] != candidates@[l],
            decreases w - x,
        {
            let mut y: i32 = 0;
            while y < h
                invariant
                    0 <= y <= h,
                    0 <= x < w,
                    4 <= w <= 10000,
                    4 <= h <= 10000,
                    0 <= px < w,
                    0 <= py < h,
                    ppos == (Vec2 { x: px, y: py }),
                    visited == x * h + y,
                    candidates@.len() == visited - skipped,
                    0 <= skipped,
                    skipped <= 3 * near_cap(px as int, x as int) + near_cap(py as int, y as int),
                    px - 1 <= x <= px + 1 || skipped <= 3 * near_cap(px as int, x as int),
                    forall|k: int|
                        0 <= k < candidates@.len() ==> (#[trigger] candidates@[k]).spec_in_bounds(
                            w as int,
                            h as int,
                        ) && !near(candidates@[k], ppos),
                    forall|k: int|
                        0 <= k < candidates@.len() ==> (#[trigger] candidates@[k]).x < x || (
                        candidates@[k].x == x && candidates@[k].y < y),
                    forall|k: int, l: int|
                        0 <= k < l < candidates@.len() ==> candidates@[k] != candidates@[l],
                decreases h - y,
            {
                if px - 1 <= x && x <= px + 1 && py - 1 <= y && y <= py + 1 {
                    proof {
                        skipped = skipped + 1;
                    }
                } else {
                    candidates.push(Vec2 { x, y });
                }
                proof {
                    visited = visited + 1;
                }
                y = y + 1;
            }
            proof {
                assert((x + 1) * h == x * h + h) by (nonlinear_arith);
                assert(near_cap(py as int, h as int) <= 3);
                assert(skipped <= 3 * near_cap(px as int, x + 1));
            }
            x = x + 1;
        }
        proof {
            assert(near_cap(px as int, w as int) <= 3);
            assert(skipped <= 9);
            assert(16 <= (w as int) * (h as int) <= 100000000) by (nonlinear_arith)
                requires
                    4 <= w <= 10000,
                    4 <= h <= 10000,
            ;
            assert((w as int) * (h as int) / 4 + 9 <= (w as int) * (h as int)) by (nonlinear_arith)
                requires
                    16 <= (w as int) * (h as int) <= 100000000,
            ;
            assert(count as int <= old(self)@.config.spec_robot_count_max());
            assert(count as int <= candidates@.len());
        }
        let ghost len0 = candidates@.len() as int;
        while self.robots.len() < count as usize
            invariant
                0 <= count,
                count as int == spec_robot_count(old(self)@.config, old(self)@.level),
                self@ == (GameV {
                    robots: self@.robots,
                    initial_robot_count: count as int,
                    ..old(self)@
                }),
                ppos == old(self)@.player.pos,
                4 <= w <= 10000,
                4 <= h <= 10000,
                self.robots@.len() <= count as int,
                self.robots@.len() + candidates@.len() == len0,
                len0 <= 100000000,
                count as int <= len0,
                forall|k: int|
                    0 <= k < candidates@.len() ==> (#[trigger] candidates@[k]).spec_in_bounds(
                        w as int,
                        h as int,
                    ) && !near(candidates@[k], ppos),
                forall|k: int, l: int|
                    0 <= k < l < candidates@.len() ==> candidates@[k] != candidates@[l],
                forall|k: int|
                    0 <= k < self.robots@.len() ==> (#[trigger] self.robots@[k]).exist
                        && self.robots@[k].pos.spec_in_bounds(w as int, h as int) && !near(
                        self.robots@[k].pos,
                        ppos,
                    ),
                forall|k: int, l: int|
                    0 <= k < l < self.robots@.len() ==> self.robots@[k].pos != self.robots@[l].pos,
                forall|k: int, l: int|
                    0 <= k < self.robots@.len() && 0 <= l < candidates@.len()
                        ==> (#[trigger] self.robots@[k]).pos != (#[trigger] candidates@[l]),
            decreases count as int - self.robots@.len(),
        {
            let idx = rng_gen_range(&mut self.rng, 0, candidates.len() as i32);
            let c = candidates[idx as usize];
            self.robots.push(Robot { pos: c, exist: true });
            let ghost pre = candidates@;
            candidates.swap_remove(idx as usize);
            proof {
                assert(forall|l: int|
                    0 <= l < candidates@.len() ==> #[trigger] candidates@[l] == pre[l] || candidates@[l]
                        == pre[pre.len() - 1]);
            }
        }
    }

    /// Places the decorative cannon on a uniformly random cell of the
    /// centered half-width, half-height block.
    pub fn set_laser_cannon(&mut self)
        requires
            old(self)@.wf(),
        ensures
            valid_cannon(final(self)@.cannon.pos, old(self)@.config),
            final(self)@ == (GameV {
                cannon: LaserCannon {
                    pos: final(self)@.cannon.pos,
                    turn: 0,
                    direction: Direction::Right,
                },
                ..old(self)@
            }),
    {
        let qw = self.config.field_w / 4;
        let qh = self.config.field_h / 4;
        let x = self.config.field_w / 2 + rng_gen_range(&mut self.rng, -qw, qw + 1);
        let y = if qh > 0 {
            self.config.field_h / 2 + rng_gen_range(&mut self.rng, -qh, qh)
        } else {
            self.config.field_h / 2
        };
        self.laser_cannon = LaserCannon { pos: Vec2 { x, y }, turn: 0, direction: Direction::Right };
    }

    /// Starts the next level: flags reset, the player back at the center with
    /// its energy kept, junk cleared, and a fresh robot population and cannon
    /// placed at random.
    pub fn next_level(&mut self)
        requires
            old(self)@.wf(),
            old(self)@.level < i32::MAX,
        ensures
            final(self)@.wf(),
            all_live(final(self)@.robots),
            exists|spawn: Seq<Robot>, cannon: Vec2|
                valid_spawn(spawn, old(self)@.config, old(self)@.level + 1, old(self)@.config.spec_center())
                    && valid_cannon(cannon, old(self)@.config)
                    && final(self)@ == level_start(old(self)@, spawn, cannon),
    {
        self.is_over = false;
        self.is_clear = false;
        self.level = self.level + 1;
        let c = self.config.center();
        self.player.pos = c;
        self.junks = Vec::new();
        proof {
            assert(self@.junks =~= Seq::<Junk>::empty());
            assert(self@.robots == old(self)@.robots);
            assert(self@.wf());
        }
        self.spawn_robots();
        self.set_laser_cannon();
        proof {
            let spawn = self@.robots;
            let cannon = self@.cannon.pos;
            assert(self@ =~= level_start(old(self)@, spawn, cannon));
            assert(valid_spawn(spawn, old(self)@.config, old(self)@.level + 1, old(self)@.config.spec_center())
                && valid_cannon(cannon, old(self)@.config)
                && self@ == level_start(old(self)@, spawn, cannon));
        }
    }

    /// One tick of the simulation.  The tick counter always advances; while
    /// replaying, the logged command for this tick replaces `command`, and
    /// while live, `command` is appended to the outgoing log.  A lost game
    /// ignores its command; a clear level reacts only to `NextLevel`; in
    /// play, energy regenerates, the command is dispatched, every robot
    /// advances, and the loss, collision and clear checks run in that order
    /// before destroyed robots are purged.  The new state is exactly one
    /// [`tick`] of the old state under some legal draw of random values.
    #[verifier::rlimit(100)]
    pub fn update(&mut self, command: Command)
        requires
            old(self)@.wf(),
            old(self)@.frame < i32::MAX,
            old(self)@.level < i32::MAX,
        ensures
            final(self)@.wf(),
            exists|o: Oracle|
                o.valid_for(old(self)@, command) && final(self)@ == tick(old(self)@, command, o),
            final(self)@.frame == old(self)@.frame + 1,
            old(self)@.level <= final(self)@.level <= old(self)@.level + 1,
            all_live(old(self)@.robots) ==> all_live(final(self)@.robots),
    {
        self.frame = self.frame + 1;
        let cmd: Command;
        match &self.replay {
            Option::Some(rlog) => {
                let idx = self.frame as usize;
                if idx < rlog.len() {
                    cmd = rlog[idx];
                } else {
                    cmd = command;
                }
            },
            Option::None => {
                cmd = command;
            },
        }
        if self.replay.is_none() {
            self.log.push(command);
        }
        proof {
            assert(self@ =~= bookkept(old(self)@, command));
            assert(cmd == effective_command(old(self)@, command));
        }
        let ghost center = old(self)@.config.spec_center();
        if self.is_over {
            proof {
                let o = Oracle { teleport_to: center, spawn: arbitrary(), cannon_pos: center };
                assert(o.valid_for(old(self)@, command) && self@ == tick(old(self)@, command, o));
                lemma_tick_preserves_wf(old(self)@, command, o);
                if all_live(old(self)@.robots) {
                    lemma_tick_all_live(old(self)@, command, o);
                }
            }
            return;
        }
        if self.is_clear {
            if cmd == Command::NextLevel {
                self.next_level();
                proof {
                    let (spawn, cannon): (Seq<Robot>, Vec2) = choose|spawn: Seq<Robot>, cannon: Vec2|
                        valid_spawn(
                            spawn,
                            old(self)@.config,
                            old(self)@.level + 1,
                            old(self)@.config.spec_center(),
                        ) && valid_cannon(cannon, old(self)@.config) && self@ == level_start(
                            bookkept(old(self)@, command),
                            spawn,
                            cannon,
                        );
                    let o = Oracle { teleport_to: center, spawn, cannon_pos: cannon };
                    assert(o.valid_for(old(self)@, command) && self@ == tick(old(self)@, command, o));
                    lemma_tick_preserves_wf(old(self)@, command, o);
                    if all_live(old(self)@.robots) {
                        lemma_tick_all_live(old(self)@, command, o);
                    }
                }
            } else {
                proof {
                    let o = Oracle { teleport_to: center, spawn: arbitrary(), cannon_pos: center };
                    assert(o.valid_for(old(self)@, command) && self@ == tick(old(self)@, command, o));
                    lemma_tick_preserves_wf(old(self)@, command, o);
                    if all_live(old(self)@.robots) {
                        lemma_tick_all_live(old(self)@, command, o);
                    }
                }
            }
            return;
        }
        self.regen_energy();
        let ghost v2 = self@;
        let ghost mut tp: Vec2 = center;
        match cmd {
            Command::Left => self.move_player(Direction::Left),
            Command::Right => self.move_player(Direction::Right),
            Command::Down => self.move_player(Direction::Down),
            Command::Up => self.move_player(Direction::Up),
            Command::UpLeft => self.move_player(Direction::UpLeft),
            Command::UpRight => self.move_player(Direction::UpRight),
            Command::DownLeft => self.move_player(Direction::DownLeft),
            Command::DownRight => self.move_player(Direction::DownRight),
            Command::Teleport => {
                self.teleport();
                proof {
                    tp = choose|t: Vec2|
                        t.spec_in_bounds(
                            old(self)@.config.field_w as int,
                            old(self)@.config.field_h as int,
                        ) && self@ == after_teleport(v2, t);
                }
            },
            Command::Noop => {},
            Command::Wait => {},
            Command::NextLevel => {},
        }
        proof {
            assert(self@ == dispatched(v2, cmd, tp));
        }
        self.move_robots();
        self.check_gameover();
        self.check_robots_collision();
        self.check_clear();
        self.purge_robots();
        proof {
            let o = Oracle { teleport_to: tp, spawn: arbitrary(), cannon_pos: center };
            assert(o.valid_for(old(self)@, command) && self@ == tick(old(self)@, command, o));
            lemma_tick_preserves_wf(old(self)@, command, o);
            if all_live(old(self)@.robots) {
                lemma_tick_all_live(old(self)@, command, o);
            }
        }
    }

    /// A fresh engine: the given configuration, the random stream seeded with
    /// `seed`, logging enabled, and the first level spawned.
    pub fn new(seed: u64, config: Config) -> (g: Game)
        requires
            config.valid(),
        ensures
            g@.wf(),
            all_live(g@.robots),
            exists|spawn: Seq<Robot>, cannon: Vec2|
                valid_spawn(spawn, config, 1, config.spec_center()) && valid_cannon(cannon, config)
                    && g@ == level_start(initial_state(config), spawn, cannon),
    {
        let mut game = Game {
            rng: rng_from_seed(seed),
            config,
            frame: -1,
            requested_sounds: Vec::new(),
            is_over: false,
            is_clear: false,
            level: 0,
            initial_robot_count: 0,
            player: Player { pos: Vec2 { x: 0, y: 0 }, energy: 0 },
            robots: Vec::new(),
            junks: Vec::new(),
            laser_cannon: LaserCannon {
                pos: Vec2 { x: 0, y: 0 },
                turn: 0,
                direction: Direction::Up,
            },
            replay: Option::None,
            log: Vec::new(),
        };
        proof {
            assert(game@ =~= initial_state(config));
        }
        game.next_level();
        game
    }
}

} // verus!
