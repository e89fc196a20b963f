//! The engine's global laws, proved over the tick model of [`crate::step`]:
//! the bounds invariant, idempotence of terminal states, determinism,
//! replay round-trips, and collision symmetry.

use vstd::prelude::*;

use crate::command::Command;
use crate::state::{all_live, junk_at, GameV, Junk, Robot};
use crate::step::{
    after_clear, after_collision, after_gameover, after_purge, after_regen, after_robots,
    bookkept, dispatched, effective_command, first_at_cell, level_start, live_robots,
    new_junks, pair_collides, robot_dies, run, tick, Oracle,
};

verus! {

/// Every junk pile a collision pass adds sits on the cell of a colliding
/// robot that is the first of its cell, on a cell that held no junk before;
/// no two of them share a cell.
pub proof fn lemma_new_junks_ok(robots: Seq<Robot>, junks: Seq<Junk>, n: int)
    requires
        n <= robots.len(),
    ensures
        forall|k: int|
            0 <= k < new_junks(robots, junks, n).len() ==> exists|j: int|
                0 <= j < n && (#[trigger] new_junks(robots, junks, n)[k]) == (Junk {
                    pos: robots[j].pos,
                }) && pair_collides(robots, j) && first_at_cell(robots, j) && !junk_at(
                    junks,
                    robots[j].pos,
                ),
        forall|k: int, l: int|
            0 <= k < l < new_junks(robots, junks, n).len() ==> (#[trigger] new_junks(
                robots,
                junks,
                n,
            )[k]).pos != (#[trigger] new_junks(robots, junks, n)[l]).pos,
    decreases n,
{
    if n > 0 {
        lemma_new_junks_ok(robots, junks, n - 1);
        let prev = new_junks(robots, junks, n - 1);
        let cur = new_junks(robots, junks, n);
        if pair_collides(robots, n - 1) && first_at_cell(robots, n - 1) && !junk_at(
            junks,
            robots[n - 1].pos,
        ) {
            assert(cur == prev.push(Junk { pos: robots[n - 1].pos }));
            assert forall|k: int, l: int| 0 <= k < l < cur.len() implies cur[k].pos
                != cur[l].pos by {
                if l == cur.len() - 1 {
                    let j = choose|j: int|
                        0 <= j < n - 1 && prev[k] == (Junk { pos: robots[j].pos })
                            && pair_collides(robots, j) && first_at_cell(robots, j) && !junk_at(
                            junks,
                            robots[j].pos,
                        );
                    if robots[j].pos == robots[n - 1].pos {
                        assert(robots[j].exist);
                        assert(!first_at_cell(robots, n - 1));
                    }
                }
            }
        }
    }
}

/// Compaction never grows the list, and keeps every survivor on the grid.
pub proof fn lemma_live_robots_wf(s: Seq<Robot>, w: int, h: int)
    requires
        forall|i: int| 0 <= i < s.len() ==> (#[trigger] s[i]).pos.spec_in_bounds(w, h),
    ensures
        live_robots(s).len() <= s.len(),
        forall|i: int|
            0 <= i < live_robots(s).len() ==> (#[trigger] live_robots(s)[i]).pos.spec_in_bounds(
                w,
                h,
            ),
    decreases s.len(),
{
    reveal(Seq::filter);
    if s.len() > 0 {
        assert(forall|i: int|
            0 <= i < s.drop_last().len() ==> (#[trigger] s.drop_last()[i]).pos.spec_in_bounds(
                w,
                h,
            ));
        lemma_live_robots_wf(s.drop_last(), w, h);
        let prev = live_robots(s.drop_last());
        let cur = live_robots(s);
        assert forall|i: int| 0 <= i < cur.len() implies (#[trigger] cur[i]).pos.spec_in_bounds(
            w,
            h,
        ) by {
            if i < prev.len() {
                assert(cur[i] == prev[i]);
            } else {
                assert(cur[i] == s[s.len() - 1]);
            }
        }
    }
}

/// After compaction every remaining robot is live.
pub proof fn lemma_live_robots_live(s: Seq<Robot>)
    ensures
        all_live(live_robots(s)),
    decreases s.len(),
{
    reveal(Seq::filter);
    if s.len() > 0 {
        lemma_live_robots_live(s.drop_last());
    }
}

/// Bounds preservation: a tick taken from a well-formed state with legal
/// random values is well-formed again — in particular the player and every
/// robot stay on the grid, and junk piles stay on distinct grid cells.
#[verifier::rlimit(100)]
pub proof fn lemma_tick_preserves_wf(v: GameV, c: Command, o: Oracle)
    requires
        v.wf(),
        o.valid_for(v, c),
    ensures
        tick(v, c, o).wf(),
{
    let ce = effective_command(v, c);
    let v1 = bookkept(v, c);
    assert(v1.wf());
    if v.is_over {
    } else if v.is_clear {
        if ce == Command::NextLevel {
            let w = v.config.field_w as int;
            let h = v.config.field_h as int;
            assert(0 <= w * h) by (nonlinear_arith)
                requires
                    0 <= w,
                    0 <= h,
            ;
            assert(level_start(v1, o.spawn, o.cannon_pos).wf());
        }
    } else {
        let v2 = after_regen(v1);
        assert(v2.wf());
        let v3 = dispatched(v2, ce, o.teleport_to);
        assert(v3.wf());
        let v4 = after_robots(v3);
        assert(v4.wf());
        let v5 = after_gameover(v4);
        assert(v5.wf());
        let v6 = after_collision(v5);
        lemma_new_junks_ok(v5.robots, v5.junks, v5.robots.len() as int);
        assert(v6.wf());
        let v7 = after_clear(v6);
        assert(v7.wf());
        let v8 = after_purge(v7);
        lemma_live_robots_wf(v7.robots, v.config.field_w as int, v.config.field_h as int);
        assert(v8.wf());
    }
}

/// Legality of a whole run's random draws: each tick's draw is legal for
/// the state it is taken from.
pub open spec fn valid_oracles(v: GameV, cs: Seq<Command>, os: Seq<Oracle>) -> bool
    decreases cs.len(),
{
    cs.len() == 0 || (os[0].valid_for(v, cs[0]) && valid_oracles(
        tick(v, cs[0], os[0]),
        cs.drop_first(),
        os.drop_first(),
    ))
}

/// Bounds for all ticks: a whole run from a well-formed state under legal
/// draws passes through well-formed states only — the player and every live
/// robot stay within the grid at every tick.
pub proof fn lemma_run_preserves_wf(v: GameV, cs: Seq<Command>, os: Seq<Oracle>, k: int)
    requires
        v.wf(),
        valid_oracles(v, cs, os),
        os.len() >= cs.len(),
        0 <= k <= cs.len(),
    ensures
        run(v, cs.take(k), os.take(k)).wf(),
    decreases k,
{
    if k == 0 {
        assert(cs.take(0) =~= Seq::<Command>::empty());
    } else {
        let v1 = tick(v, cs[0], os[0]);
        lemma_tick_preserves_wf(v, cs[0], os[0]);
        lemma_run_preserves_wf(v1, cs.drop_first(), os.drop_first(), k - 1);
        assert(cs.take(k).drop_first() =~= cs.drop_first().take(k - 1));
        assert(os.take(k).drop_first() =~= os.drop_first().take(k - 1));
        assert(cs.take(k)[0] == cs[0] && os.take(k)[0] == os[0]);
    }
}

/// Liveness of the robot list is restored by every tick: between ticks no
/// destroyed robot lingers.
pub proof fn lemma_tick_all_live(v: GameV, c: Command, o: Oracle)
    requires
        all_live(v.robots),
        o.valid_for(v, c),
    ensures
        all_live(tick(v, c, o).robots),
{
    let ce = effective_command(v, c);
    if v.is_over || (v.is_clear && ce != Command::NextLevel) {
    } else if v.is_clear {
    } else {
        let v1 = bookkept(v, c);
        let v7 = after_clear(
            after_collision(after_gameover(after_robots(dispatched(after_regen(v1), ce, o.teleport_to)))),
        );
        lemma_live_robots_live(v7.robots);
    }
}

/// Idempotence of terminal states: a tick taken while the game is lost, or
/// while the level is clear and the effective command is not `NextLevel`,
/// changes nothing but the tick counter and the log — grid, entities, level,
/// flags and pending events all stay as they were.
pub proof fn lemma_terminal_tick_is_noop(v: GameV, c: Command, o: Oracle)
    requires
        v.is_over || (v.is_clear && effective_command(v, c) != Command::NextLevel),
    ensures
        tick(v, c, o) == bookkept(v, c),
        tick(v, c, o).junks == v.junks,
        tick(v, c, o).robots == v.robots,
        tick(v, c, o).player == v.player,
        tick(v, c, o).level == v.level,
        tick(v, c, o).is_over == v.is_over,
        tick(v, c, o).is_clear == v.is_clear,
        tick(v, c, o).events == v.events,
        tick(v, c, o).frame == v.frame + 1,
{
}

/// Determinism: the tick model is a function, so two runs from equal states,
/// fed the same command sequence and the same random draws, pass through
/// equal states at every step.  Equal seeds give the random source equal
/// draw sequences, which is what makes two engines with one seed and one
/// command log produce identical snapshots.
pub proof fn lemma_run_deterministic(
    v1: GameV,
    v2: GameV,
    cs: Seq<Command>,
    os: Seq<Oracle>,
    k: int,
)
    requires
        v1 == v2,
        0 <= k <= cs.len(),
    ensures
        run(v1, cs.take(k), os.take(k)) == run(v2, cs.take(k), os.take(k)),
{
}

/// Everything a tick does to the counter, the log and the replay state: the
/// counter advances by one, the live command is logged exactly while not
/// replaying, and the loaded replay and the configuration never change.
pub proof fn lemma_tick_bookkeeping(v: GameV, c: Command, o: Oracle)
    ensures
        tick(v, c, o).frame == v.frame + 1,
        tick(v, c, o).log == bookkept(v, c).log,
        tick(v, c, o).replay == v.replay,
        tick(v, c, o).config == v.config,
{
}

/// True when the two states agree on everything a renderer can see — grid,
/// entities, flags, level, energy, counter and pending events — and differ
/// at most in the replay and log plumbing.
pub open spec fn same_world(a: GameV, b: GameV) -> bool {
    GameV { replay: b.replay, log: b.log, ..a } == b
}

/// A tick reads the replay and log state only to pick its effective
/// command: two states with equal worlds, stepped under equal effective
/// commands and equal random draws, have equal worlds again.
pub proof fn lemma_tick_same_world(a: GameV, b: GameV, ca: Command, cb: Command, o: Oracle)
    requires
        same_world(a, b),
        effective_command(a, ca) == effective_command(b, cb),
    ensures
        same_world(tick(a, ca, o), tick(b, cb, o)),
{
    let ce = effective_command(a, ca);
    let a1 = bookkept(a, ca);
    let b1 = bookkept(b, cb);
    assert(same_world(a1, b1));
    if a.is_over {
    } else if a.is_clear {
        if ce == Command::NextLevel {
            assert(same_world(level_start(a1, o.spawn, o.cannon_pos), level_start(b1, o.spawn, o.cannon_pos)));
        }
    } else {
        let a2 = after_regen(a1);
        let b2 = after_regen(b1);
        assert(same_world(a2, b2));
        let a3 = dispatched(a2, ce, o.teleport_to);
        let b3 = dispatched(b2, ce, o.teleport_to);
        assert(same_world(a3, b3));
        let a4 = after_robots(a3);
        let b4 = after_robots(b3);
        assert(same_world(a4, b4));
        let a5 = after_gameover(a4);
        let b5 = after_gameover(b4);
        assert(same_world(a5, b5));
        let a6 = after_collision(a5);
        let b6 = after_collision(b5);
        assert(same_world(a6, b6));
        let a7 = after_clear(a6);
        let b7 = after_clear(b6);
        assert(same_world(a7, b7));
        assert(same_world(after_purge(a7), after_purge(b7)));
    }
}

/// A live run logs exactly the commands it was fed, in order, and advances
/// the counter once per command; it stays out of replay mode.
pub proof fn lemma_live_run_log(v: GameV, cs: Seq<Command>, os: Seq<Oracle>)
    requires
        v.replay is None,
        os.len() >= cs.len(),
    ensures
        run(v, cs, os).replay is None,
        run(v, cs, os).log == v.log + cs,
        run(v, cs, os).frame == v.frame + cs.len(),
        run(v, cs, os).config == v.config,
    decreases cs.len(),
{
    if cs.len() == 0 {
        assert(v.log + cs =~= v.log);
    } else {
        let v1 = tick(v, cs[0], os[0]);
        lemma_tick_bookkeeping(v, cs[0], os[0]);
        lemma_live_run_log(v1, cs.drop_first(), os.drop_first());
        assert(v.log.push(cs[0]) + cs.drop_first() =~= v.log + cs);
    }
}

/// The inductive heart of the replay round-trip: a live run and a replay run
/// whose worlds agree, where the replay log continues with exactly the
/// commands the live run is about to take, end with equal worlds whatever
/// commands are fed to the replaying engine.
pub proof fn lemma_replay_runs_agree(
    a: GameV,
    b: GameV,
    rlog: Seq<Command>,
    cs: Seq<Command>,
    fill: Seq<Command>,
    os: Seq<Oracle>,
)
    requires
        same_world(a, b),
        a.replay is None,
        b.replay == Option::Some(rlog),
        -1 <= a.frame,
        fill.len() == cs.len(),
        os.len() >= cs.len(),
        a.frame + 1 + cs.len() <= rlog.len(),
        forall|k: int| 0 <= k < cs.len() ==> rlog[a.frame + 1 + k] == cs[k],
    ensures
        same_world(run(a, cs, os), run(b, fill, os)),
    decreases cs.len(),
{
    if cs.len() > 0 {
        assert(effective_command(a, cs[0]) == cs[0]);
        assert(rlog[a.frame + 1] == cs[0]);
        assert(effective_command(b, fill[0]) == cs[0]);
        lemma_tick_same_world(a, b, cs[0], fill[0], os[0]);
        lemma_tick_bookkeeping(a, cs[0], os[0]);
        lemma_tick_bookkeeping(b, fill[0], os[0]);
        let a1 = tick(a, cs[0], os[0]);
        let b1 = tick(b, fill[0], os[0]);
        assert(forall|k: int|
            0 <= k < cs.drop_first().len() ==> rlog[a1.frame + 1 + k] == cs.drop_first()[k]);
        lemma_replay_runs_agree(a1, b1, rlog, cs.drop_first(), fill.drop_first(), os.drop_first());
    }
}

/// Replay round-trip: take a fresh engine state, run it live on any command
/// sequence, and record its log.  A second fresh state with that log loaded
/// as a replay, stepped the same number of ticks with the same random draws
/// — whatever live commands are fed to it — passes through the same world:
/// the same terminal flags, entities and tick count.
pub proof fn lemma_replay_round_trip(
    v: GameV,
    cs: Seq<Command>,
    fill: Seq<Command>,
    os: Seq<Oracle>,
)
    requires
        v.replay is None,
        v.log.len() == 0,
        v.frame == -1,
        fill.len() == cs.len(),
        os.len() >= cs.len(),
    ensures
        same_world(
            run(v, cs, os),
            run(GameV { replay: Option::Some(run(v, cs, os).log), ..v }, fill, os),
        ),
        run(GameV { replay: Option::Some(run(v, cs, os).log), ..v }, fill, os).frame == run(
            v,
            cs,
            os,
        ).frame,
{
    lemma_live_run_log(v, cs, os);
    let rlog = run(v, cs, os).log;
    assert(rlog =~= cs);
    let b = GameV { replay: Option::Some(rlog), ..v };
    assert(same_world(v, b));
    lemma_replay_runs_agree(v, b, rlog, cs, fill, os);
    assert(same_world(run(v, cs, os), run(b, fill, os)));
}

/// Somewhere at or before a live robot's cell stands the first live robot of
/// that cell.
pub proof fn lemma_first_live_at(robots: Seq<Robot>, i: int)
    requires
        0 <= i < robots.len(),
        robots[i].exist,
    ensures
        exists|m: int|
            0 <= m <= i && (#[trigger] robots[m]).exist && robots[m].pos == robots[i].pos
                && first_at_cell(robots, m),
    decreases i,
{
    if first_at_cell(robots, i) {
        assert(robots[i].exist && robots[i].pos == robots[i].pos && first_at_cell(robots, i));
    } else {
        let k = choose|k: int| 0 <= k < i && (#[trigger] robots[k]).exist && robots[k].pos == robots[i].pos;
        lemma_first_live_at(robots, k);
    }
}

/// A robot that collides, stands first on its cell, and finds no junk there
/// leaves its junk pile in the collision pass's additions.
pub proof fn lemma_new_junks_complete(robots: Seq<Robot>, junks: Seq<Junk>, n: int, m: int)
    requires
        0 <= m < n <= robots.len(),
        pair_collides(robots, m),
        first_at_cell(robots, m),
        !junk_at(junks, robots[m].pos),
    ensures
        exists|k: int|
            0 <= k < new_junks(robots, junks, n).len() && (#[trigger] new_junks(robots, junks, n)[k])
                == (Junk { pos: robots[m].pos }),
    decreases n,
{
    let cur = new_junks(robots, junks, n);
    if m == n - 1 {
        assert(cur[cur.len() - 1] == (Junk { pos: robots[m].pos }));
    } else {
        lemma_new_junks_complete(robots, junks, n - 1, m);
        let prev = new_junks(robots, junks, n - 1);
        let k = choose|k: int|
            0 <= k < prev.len() && (#[trigger] prev[k]) == (Junk { pos: robots[m].pos });
        assert(cur[k] == (Junk { pos: robots[m].pos }));
    }
}

/// Collision symmetry: when two live robots stand on one cell after the move
/// phase, the collision pass destroys both, the cell holds a junk pile
/// afterwards, and the junk list stays free of duplicates — the pile is
/// added once, not once per robot.
pub proof fn lemma_collision_symmetry(v: GameV, i: int, j: int)
    requires
        v.wf(),
        0 <= i < v.robots.len(),
        0 <= j < v.robots.len(),
        i != j,
        v.robots[i].exist,
        v.robots[j].exist,
        v.robots[i].pos == v.robots[j].pos,
    ensures
        !after_collision(v).robots[i].exist,
        !after_collision(v).robots[j].exist,
        junk_at(after_collision(v).junks, v.robots[i].pos),
        forall|k: int, l: int|
            0 <= k < l < after_collision(v).junks.len() ==> (#[trigger] after_collision(
                v,
            ).junks[k]).pos != (#[trigger] after_collision(v).junks[l]).pos,
{
    let c = v.robots[i].pos;
    let n = v.robots.len() as int;
    assert(robot_dies(v.robots, v.junks, i));
    assert(robot_dies(v.robots, v.junks, j));
    let post = after_collision(v);
    lemma_new_junks_ok(v.robots, v.junks, n);
    if junk_at(v.junks, c) {
        let k = choose|k: int| 0 <= k < v.junks.len() && (#[trigger] v.junks[k]).pos == c;
        assert(post.junks[k].pos == c);
    } else {
        lemma_first_live_at(v.robots, i);
        let m = choose|m: int|
            0 <= m <= i && (#[trigger] v.robots[m]).exist && v.robots[m].pos == c
                && first_at_cell(v.robots, m);
        assert(pair_collides(v.robots, m));
        lemma_new_junks_complete(v.robots, v.junks, n, m);
        let k = choose|k: int|
            0 <= k < new_junks(v.robots, v.junks, n).len() && (#[trigger] new_junks(
                v.robots,
                v.junks,
                n,
            )[k]) == (Junk { pos: c });
        assert(post.junks[v.junks.len() + k] == (Junk { pos: c }));
    }
    assert forall|k: int, l: int| 0 <= k < l < post.junks.len() implies (#[trigger] post.junks[k]).pos
        != (#[trigger] post.junks[l]).pos by {
        let nj = new_junks(v.robots, v.junks, n);
        if l >= v.junks.len() {
            let jl = choose|t: int|
                0 <= t < n && nj[l - v.junks.len()] == (Junk { pos: v.robots[t].pos })
                    && pair_collides(v.robots, t) && first_at_cell(v.robots, t) && !junk_at(
                    v.junks,
                    v.robots[t].pos,
                );
            if k < v.junks.len() {
                assert(post.junks[k] == v.junks[k]);
            }
        }
    }
}

} // verus!
