use robots::state::{robot_count, Config};

#[test]
fn robot_count_follows_the_formula() {
    let cfg = Config::standard();
    // base 11 + level * 5, capped at a quarter of the 36x36 grid
    assert_eq!(robot_count(&cfg, 1), 16);
    assert_eq!(robot_count(&cfg, 2), 21);
    assert_eq!(robot_count(&cfg, 10), 61);
    assert_eq!(robot_count(&cfg, 100), 324);
    assert_eq!(robot_count(&cfg, i32::MAX), 324);
}

#[test]
fn robot_count_clamps_below_at_zero() {
    let cfg = Config {
        field_w: 10,
        field_h: 10,
        robot_count_base: 0,
        robot_count_per_level: 0,
        energy_max: 0,
        energy_regen: 0,
        teleport_cost: 0,
    };
    assert_eq!(robot_count(&cfg, 1), 0);
    assert_eq!(robot_count(&cfg, 50), 0);
}
