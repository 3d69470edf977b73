use hinterland::clock::SimulationClock;

#[test]
fn clock_starts_at_one_second() {
    let c = SimulationClock::new();
    assert_eq!(c.cool_down, 1000);
    assert_eq!(c.run_cool_down, 1000);
    assert_eq!(c.fire_cool_down, 1000);
    assert_eq!(c.frames, 0);
}

#[test]
fn advance_decays_and_counts_frames() {
    let mut c = SimulationClock::new();
    c.advance(100);
    assert_eq!(c.cool_down, 900);
    assert_eq!(c.run_cool_down, 900);
    assert_eq!(c.fire_cool_down, 900);
    assert_eq!(c.frames, 1);
}

#[test]
fn decay_clamps_at_exactly_zero() {
    let mut c = SimulationClock::new();
    c.advance(999);
    assert_eq!(c.cool_down, 1);
    c.advance(5);
    // 1 - 5 clamps to exactly 0, never below.
    assert_eq!(c.cool_down, 0);
}

#[test]
fn fired_cooldown_reseeds_to_its_own_interval() {
    let mut c = SimulationClock::new();
    c.advance(1000);
    assert_eq!(c.cool_down, 0);
    assert_eq!(c.run_cool_down, 0);
    assert_eq!(c.fire_cool_down, 0);
    c.advance(10);
    // Reseeded to 50 / 20 / 200, then decayed by 10.
    assert_eq!(c.cool_down, 40);
    assert_eq!(c.run_cool_down, 10);
    assert_eq!(c.fire_cool_down, 190);
}

#[test]
fn cadence_is_exact_for_dividing_delta() {
    // Walk interval 50, constant delta 10: after the first fire the walk
    // cooldown fires exactly once every 5 ticks, with no double fire.
    let mut c = SimulationClock::new();
    while c.cool_down != 0 {
        c.advance(10);
    }
    let mut fires = 0;
    let mut since_last = 0;
    for _ in 0..100 {
        c.advance(10);
        since_last += 1;
        if c.cool_down == 0 {
            assert_eq!(since_last, 5);
            fires += 1;
            since_last = 0;
        }
    }
    assert_eq!(fires, 20);
}

#[test]
fn oversized_delta_fires_every_tick() {
    let mut c = SimulationClock::new();
    c.advance(1000);
    assert_eq!(c.run_cool_down, 0);
    // Delta larger than the run interval: clamped to zero each tick.
    c.advance(25);
    assert_eq!(c.run_cool_down, 0);
    c.advance(25);
    assert_eq!(c.run_cool_down, 0);
}
