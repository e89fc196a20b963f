use rand::rngs::StdRng;
use rand::SeedableRng;

use robots::command::{Command, Event};
use robots::game::Game;
use robots::geom::Vec2;
use robots::state::{Config, Junk, LaserCannon, Player, Robot};

fn small_config() -> Config {
    Config {
        field_w: 10,
        field_h: 10,
        robot_count_base: 1,
        robot_count_per_level: 1,
        energy_max: 100,
        energy_regen: 0,
        teleport_cost: 25,
    }
}

/// A hand-laid-out game state: player and robots exactly where a scenario
/// wants them.
fn game_with(config: Config, player: Vec2, energy: i32, robots: Vec<Robot>, junks: Vec<Junk>) -> Game {
    Game {
        rng: StdRng::seed_from_u64(0),
        config,
        frame: -1,
        requested_sounds: Vec::new(),
        is_over: false,
        is_clear: false,
        level: 1,
        initial_robot_count: robots.len() as i32,
        player: Player { pos: player, energy },
        robots,
        junks,
        laser_cannon: LaserCannon {
            pos: Vec2 { x: 0, y: 0 },
            turn: 0,
            direction: robots::geom::Direction::Right,
        },
        replay: None,
        log: Vec::new(),
    }
}

#[test]
fn single_pursuer_chase_ends_in_crash() {
    // Grid 10x10, player at (5,5), one robot at (5,7): two waits bring the
    // robot to (5,6), then onto the player, losing the level.
    let mut g = game_with(
        small_config(),
        Vec2 { x: 5, y: 5 },
        0,
        vec![Robot { pos: Vec2 { x: 5, y: 7 }, exist: true }],
        Vec::new(),
    );
    g.update(Command::Wait);
    assert_eq!(g.robots.len(), 1);
    assert_eq!(g.robots[0].pos, Vec2 { x: 5, y: 6 });
    assert!(!g.is_over);
    assert_eq!(g.take_events(), Vec::<Event>::new());
    g.update(Command::Wait);
    assert_eq!(g.robots[0].pos, Vec2 { x: 5, y: 5 });
    assert!(g.is_over);
    assert_eq!(g.take_events(), vec![Event::Crash]);
}

#[test]
fn move_into_junk_is_rejected_with_one_event() {
    // A move command aimed at a junk cell leaves the player in place and
    // emits exactly one Invalid event.
    let mut g = game_with(
        small_config(),
        Vec2 { x: 5, y: 5 },
        0,
        vec![Robot { pos: Vec2 { x: 0, y: 0 }, exist: true }],
        vec![Junk { pos: Vec2 { x: 5, y: 4 } }],
    );
    g.update(Command::Up);
    assert_eq!(g.player.pos, Vec2 { x: 5, y: 5 });
    assert_eq!(g.take_events(), vec![Event::Invalid]);
}

#[test]
fn move_off_the_grid_is_rejected() {
    let mut g = game_with(
        small_config(),
        Vec2 { x: 0, y: 0 },
        0,
        vec![Robot { pos: Vec2 { x: 9, y: 9 }, exist: true }],
        Vec::new(),
    );
    g.update(Command::Left);
    assert_eq!(g.player.pos, Vec2 { x: 0, y: 0 });
    assert_eq!(g.take_events(), vec![Event::Invalid]);
}

#[test]
fn teleport_without_energy_is_rejected() {
    // Teleport with energy 0 against a cost of 25: position and energy stay,
    // one Invalid event.
    let mut g = game_with(
        small_config(),
        Vec2 { x: 5, y: 5 },
        0,
        vec![Robot { pos: Vec2 { x: 0, y: 9 }, exist: true }],
        Vec::new(),
    );
    g.update(Command::Teleport);
    assert_eq!(g.player.pos, Vec2 { x: 5, y: 5 });
    assert_eq!(g.player.energy, 0);
    assert_eq!(g.take_events(), vec![Event::Invalid]);
}

#[test]
fn teleport_with_energy_pays_cost_and_lands_on_grid() {
    let mut g = game_with(
        small_config(),
        Vec2 { x: 5, y: 5 },
        50,
        vec![Robot { pos: Vec2 { x: 0, y: 9 }, exist: true }],
        Vec::new(),
    );
    g.update(Command::Teleport);
    assert_eq!(g.player.energy, 25);
    assert!(0 <= g.player.pos.x && g.player.pos.x < 10);
    assert!(0 <= g.player.pos.y && g.player.pos.y < 10);
    let events = g.take_events();
    assert!(events.contains(&Event::Teleport));
}

#[test]
fn energy_regenerates_and_saturates() {
    let mut config = small_config();
    config.energy_regen = 5;
    config.energy_max = 100;
    let mut g = game_with(
        config,
        Vec2 { x: 5, y: 5 },
        98,
        vec![Robot { pos: Vec2 { x: 0, y: 9 }, exist: true }],
        Vec::new(),
    );
    g.update(Command::Wait);
    assert_eq!(g.player.energy, 100);
}

#[test]
fn colliding_pursuers_both_die_and_leave_one_junk() {
    // Robots at (6,7) and (4,7) both step to (5,6): both are destroyed and
    // exactly one junk pile appears there.
    let mut g = game_with(
        small_config(),
        Vec2 { x: 5, y: 5 },
        0,
        vec![
            Robot { pos: Vec2 { x: 6, y: 7 }, exist: true },
            Robot { pos: Vec2 { x: 4, y: 7 }, exist: true },
        ],
        Vec::new(),
    );
    g.update(Command::Wait);
    assert!(!g.is_over);
    assert_eq!(g.robots.len(), 0);
    assert_eq!(g.junks.len(), 1);
    assert_eq!(g.junks[0].pos, Vec2 { x: 5, y: 6 });
    assert!(g.is_clear);
    assert_eq!(g.take_events(), vec![Event::Hit, Event::Hit, Event::Win]);
}

#[test]
fn pursuer_into_junk_dies() {
    // A robot stepping onto an existing junk pile is destroyed; no new junk.
    let mut g = game_with(
        small_config(),
        Vec2 { x: 5, y: 5 },
        0,
        vec![
            Robot { pos: Vec2 { x: 5, y: 8 }, exist: true },
            Robot { pos: Vec2 { x: 0, y: 0 }, exist: true },
        ],
        vec![Junk { pos: Vec2 { x: 5, y: 7 } }],
    );
    g.update(Command::Wait);
    assert_eq!(g.junks.len(), 1);
    assert_eq!(g.robots.len(), 1);
    assert_eq!(g.robots[0].pos, Vec2 { x: 1, y: 1 });
    assert_eq!(g.take_events(), vec![Event::Hit]);
}

#[test]
fn game_over_state_ignores_commands() {
    // Idempotence in GameOver: nothing but the counter and log moves.
    let mut g = game_with(
        small_config(),
        Vec2 { x: 5, y: 5 },
        7,
        vec![Robot { pos: Vec2 { x: 5, y: 6 }, exist: true }],
        vec![Junk { pos: Vec2 { x: 2, y: 2 } }],
    );
    g.update(Command::Wait);
    assert!(g.is_over);
    g.take_events();
    let player = g.player;
    let robots = g.robots.clone();
    let junks = g.junks.clone();
    let level = g.level;
    let frame = g.frame;
    g.update(Command::Noop);
    g.update(Command::Left);
    assert_eq!(g.player, player);
    assert_eq!(g.robots, robots);
    assert_eq!(g.junks, junks);
    assert_eq!(g.level, level);
    assert_eq!(g.frame, frame + 2);
    assert!(g.is_over);
    assert_eq!(g.take_events(), Vec::<Event>::new());
}

#[test]
fn clear_state_ignores_all_but_next_level() {
    let mut g = game_with(
        small_config(),
        Vec2 { x: 5, y: 5 },
        0,
        Vec::new(),
        vec![Junk { pos: Vec2 { x: 2, y: 2 } }],
    );
    g.update(Command::Wait);
    assert!(g.is_clear);
    g.take_events();
    let player = g.player;
    let level = g.level;
    g.update(Command::Noop);
    g.update(Command::Up);
    assert_eq!(g.player, player);
    assert_eq!(g.level, level);
    assert!(g.is_clear);
    assert_eq!(g.take_events(), Vec::<Event>::new());
}

#[test]
fn next_level_spawns_fresh_population() {
    let mut g = game_with(
        small_config(),
        Vec2 { x: 2, y: 2 },
        0,
        Vec::new(),
        vec![Junk { pos: Vec2 { x: 2, y: 3 } }],
    );
    g.update(Command::Wait);
    assert!(g.is_clear);
    g.update(Command::NextLevel);
    assert_eq!(g.level, 2);
    assert!(!g.is_clear);
    // base 1 + level 2 * per 1 = 3 robots
    assert_eq!(g.robots.len(), 3);
    assert_eq!(g.initial_robot_count, 3);
    assert_eq!(g.junks.len(), 0);
    assert_eq!(g.player.pos, Vec2 { x: 5, y: 5 });
    for r in &g.robots {
        assert!(r.exist);
        assert!(0 <= r.pos.x && r.pos.x < 10);
        assert!(0 <= r.pos.y && r.pos.y < 10);
        assert!((r.pos.x - 5).abs() > 1 || (r.pos.y - 5).abs() > 1);
    }
    for i in 0..g.robots.len() {
        for j in (i + 1)..g.robots.len() {
            assert_ne!(g.robots[i].pos, g.robots[j].pos);
        }
    }
}

#[test]
fn fresh_engine_spawns_level_one() {
    let g = Game::new(11, Config::standard());
    assert_eq!(g.level, 1);
    assert_eq!(g.frame, -1);
    assert!(!g.is_over);
    assert!(!g.is_clear);
    // base 11 + level 1 * per 5 = 16 robots on a 36x36 grid
    assert_eq!(g.robots.len(), 16);
    assert_eq!(g.player.pos, Vec2 { x: 18, y: 18 });
    for r in &g.robots {
        assert!(r.exist);
        assert!(0 <= r.pos.x && r.pos.x < 36);
        assert!(0 <= r.pos.y && r.pos.y < 36);
        assert!((r.pos.x - 18).abs() > 1 || (r.pos.y - 18).abs() > 1);
    }
    for i in 0..g.robots.len() {
        for j in (i + 1)..g.robots.len() {
            assert_ne!(g.robots[i].pos, g.robots[j].pos);
        }
    }
}

#[test]
fn same_seed_same_commands_same_snapshots() {
    // Determinism: two engines with one seed, fed one command sequence,
    // agree on every snapshot.
    let commands = [
        Command::Wait,
        Command::Left,
        Command::Up,
        Command::Teleport,
        Command::DownRight,
        Command::Wait,
        Command::Right,
        Command::Teleport,
        Command::Down,
        Command::Wait,
    ];
    let mut a = Game::new(99, Config::standard());
    let mut b = Game::new(99, Config::standard());
    for c in commands {
        a.update(c);
        b.update(c);
        assert_eq!(a.frame, b.frame);
        assert_eq!(a.player, b.player);
        assert_eq!(a.robots, b.robots);
        assert_eq!(a.junks, b.junks);
        assert_eq!(a.level, b.level);
        assert_eq!(a.is_over, b.is_over);
        assert_eq!(a.is_clear, b.is_clear);
        assert_eq!(a.take_events(), b.take_events());
    }
}

#[test]
fn recorded_log_replays_to_same_terminal_state() {
    // Round-trip: the log of a live run, loaded as a replay into a fresh
    // engine with the same seed, reproduces flags, entities and tick count,
    // whatever live input arrives during the replay.
    let commands = [
        Command::Wait,
        Command::UpLeft,
        Command::Teleport,
        Command::Down,
        Command::Wait,
        Command::Right,
        Command::Teleport,
        Command::Up,
        Command::Left,
        Command::Wait,
        Command::DownLeft,
        Command::Wait,
    ];
    let mut live = Game::new(1234, Config::standard());
    for c in commands {
        live.update(c);
    }
    let log = live.log.clone();
    assert_eq!(log, commands.to_vec());
    let mut replay = Game::new(1234, Config::standard());
    replay.load_replay(log);
    for _ in commands {
        // fed commands are overridden by the loaded log
        replay.update(Command::Right);
    }
    assert_eq!(replay.frame, live.frame);
    assert_eq!(replay.player, live.player);
    assert_eq!(replay.robots, live.robots);
    assert_eq!(replay.junks, live.junks);
    assert_eq!(replay.level, live.level);
    assert_eq!(replay.is_over, live.is_over);
    assert_eq!(replay.is_clear, live.is_clear);
    assert_eq!(replay.log, Vec::<Command>::new());
}

#[test]
fn exhausted_replay_falls_back_to_live_input() {
    let mut g = game_with(
        small_config(),
        Vec2 { x: 5, y: 5 },
        0,
        vec![Robot { pos: Vec2 { x: 0, y: 9 }, exist: true }],
        Vec::new(),
    );
    g.load_replay(vec![Command::Wait]);
    g.update(Command::Left);
    // the logged Wait overrode the Left
    assert_eq!(g.player.pos, Vec2 { x: 5, y: 5 });
    g.update(Command::Left);
    // the log is exhausted: the live command applies
    assert_eq!(g.player.pos, Vec2 { x: 4, y: 5 });
    // nothing is recorded while replaying
    assert_eq!(g.log, Vec::<Command>::new());
}

#[test]
fn positions_stay_on_the_grid_for_many_ticks() {
    // Bounds invariant, exercised: player and robots never leave the grid.
    let mut config = small_config();
    config.robot_count_base = 5;
    let mut g = Game::new(5, config);
    let commands = [
        Command::Left,
        Command::Up,
        Command::UpLeft,
        Command::Wait,
        Command::DownLeft,
        Command::Down,
        Command::DownRight,
        Command::Right,
        Command::UpRight,
        Command::Teleport,
    ];
    for round in 0..20 {
        let c = commands[round % commands.len()];
        if g.is_clear {
            g.update(Command::NextLevel);
        } else {
            g.update(c);
        }
        assert!(0 <= g.player.pos.x && g.player.pos.x < 10);
        assert!(0 <= g.player.pos.y && g.player.pos.y < 10);
        for r in &g.robots {
            assert!(0 <= r.pos.x && r.pos.x < 10);
            assert!(0 <= r.pos.y && r.pos.y < 10);
        }
        if g.is_over {
            break;
        }
    }
}

#[test]
fn is_junk_reports_piles() {
    let g = game_with(
        small_config(),
        Vec2 { x: 5, y: 5 },
        0,
        Vec::new(),
        vec![Junk { pos: Vec2 { x: 3, y: 4 } }, Junk { pos: Vec2 { x: 7, y: 1 } }],
    );
    assert!(g.is_junk(3, 4));
    assert!(g.is_junk(7, 1));
    assert!(!g.is_junk(4, 3));
    assert!(!g.is_junk(5, 5));
}

#[test]
fn player_may_walk_into_a_pursuer() {
    // Robots are no obstacle to the player; doing so is the loss condition.
    let mut g = game_with(
        small_config(),
        Vec2 { x: 5, y: 5 },
        0,
        vec![Robot { pos: Vec2 { x: 5, y: 4 }, exist: true }],
        Vec::new(),
    );
    g.update(Command::Up);
    // player moved onto the robot's old cell; the robot then moves too, but
    // the loss check sees them sharing a cell only if they meet
    assert_eq!(g.player.pos, Vec2 { x: 5, y: 4 });
    assert!(g.is_over);
    assert_eq!(g.take_events(), vec![Event::Crash]);
}
