//! Tests driving the conditioner through the real filter crates.

use pot_conditioner::PotConditioner;

#[test]
fn settle_12bit_50hz() {
    let mut conditioner = PotConditioner::new(50, (0, 4095), (0, 4095));

    let input_values = [503, 847, 1050, 1030, 1052, 1049, 1047, 1052, 1050];

    for (tick, input_value) in input_values.into_iter().enumerate() {
        let output_value = conditioner.update(input_value, tick as u64);
        println!("{}", output_value);
    }
}

#[test]
fn settle_12bit_1000hz() {
    let mut conditioner = PotConditioner::new(1000, (0, 4095), (0, 4095));

    let input_values = [503, 847, 1050, 1030, 1052, 1049, 1047, 1052, 1050];

    for (tick, input_value) in input_values.into_iter().enumerate() {
        let output_value = conditioner.update(input_value, tick as u64);
        println!("{}", output_value);
    }
}

#[test]
fn settling_scenario_converges() {
    let mut c = PotConditioner::new(50, (0, 4095), (0, 4095));

    let inputs = [503, 847, 1050, 1030, 1052, 1049, 1047, 1052, 1050];
    let expected = [0, 213, 1045, 1045, 1045, 1045, 1045, 1045, 1045];

    let mut deltas: Vec<i32> = Vec::new();
    let mut prev: i32 = 0;
    for (tick, input) in inputs.into_iter().enumerate() {
        let out = c.update(input, tick as u64);
        assert_eq!(out, expected[tick]);
        // Monotone trend toward the resting point near 1050.
        assert!(out >= prev);
        assert!(out <= 1050);
        deltas.push(c.delta());
        prev = out;
    }

    // The final two updates have settled: their delta magnitude is below the
    // first delta of the initial transient.
    let transient: i32 = deltas.iter().copied().find(|d| *d != 0).unwrap();
    assert_eq!(transient, 213);
    assert_eq!(deltas[7], 0);
    assert_eq!(deltas[8], 0);
    assert!(deltas[7].abs() < transient.abs());
    assert!(deltas[8].abs() < transient.abs());
}

#[test]
fn accessors_idempotent() {
    let mut c = PotConditioner::new(50, (0, 4095), (0, 4095));
    c.update(503, 0);
    c.update(847, 1);

    assert_eq!(c.value(), c.value());
    assert_eq!(c.delta(), c.delta());
    assert_eq!(c.velocity(), c.velocity());
    assert_eq!(c.moved(), c.moved());
    assert_eq!(c.last_movement(), c.last_movement());

    let v1: i32 = c.value();
    let d1: i32 = c.delta();
    let s1: i32 = c.velocity();
    let m1: bool = c.moved();
    let v2: i32 = c.value();
    assert_eq!(v1, v2);
    assert_eq!(d1, c.delta());
    assert_eq!(s1, c.velocity());
    assert_eq!(m1, c.moved());
}

#[test]
fn velocity_tracks_coefficient_ratio() {
    let mut c = PotConditioner::new(50, (0, 4095), (0, 4095));

    let inputs = [503, 847, 1050, 1030, 1052, 1049, 1047, 1052, 1050];
    let expected_velocity = [0, 20, 50, 25, 14, 8, 5, 3, 2];

    for (tick, input) in inputs.into_iter().enumerate() {
        c.update(input, tick as u64);
        assert_eq!(c.velocity(), expected_velocity[tick]);
    }
}

#[test]
fn deadband_oscillation_zero_delta() {
    let mut c = PotConditioner::new(50, (0, 4095), (0, 4095));

    // Let the smoother settle on a resting position.
    for tick in 0..12u64 {
        c.update(1050, tick);
    }
    let settled: i32 = c.value();
    assert_eq!(settled, 1045);

    // Oscillate by less than the deadband width (4095 / 512 = 7) around the
    // resting position: the output must not move at all.
    let wiggle = [1052, 1048, 1051, 1049, 1052, 1048, 1050, 1051];
    for (i, input) in wiggle.into_iter().enumerate() {
        let out = c.update(input, 12 + i as u64);
        assert_eq!(out, settled);
        assert_eq!(c.delta(), 0);
        assert!(!c.moved());
    }
}

#[test]
fn edge_hold_sets_moved() {
    let mut c = PotConditioner::new(50, (0, 4095), (0, 4095));

    // A threshold no velocity reading can exceed: only the edge-of-range
    // override can classify movement now.
    c.set_movement_threshold(1_000_000);

    let mut saw_edge_movement = false;
    for tick in 0..12u64 {
        let out = c.update(5000, tick);
        if c.moved() {
            // Movement was declared purely because the output reached the
            // upper edge while still changing.
            assert_eq!(out, 4095);
            assert!(c.delta() != 0);
            assert!(c.velocity() <= 1_000_000);
            saw_edge_movement = true;
        }
    }
    assert!(saw_edge_movement);
    assert_eq!(c.value(), 4095);
    assert_eq!(c.last_movement(), Some(1));
}

#[test]
fn last_movement_tracking() {
    let mut c = PotConditioner::new(50, (0, 4095), (0, 4095));

    let inputs = [503, 847, 1050, 1030, 1052, 1049, 1047, 1052, 1050];

    let mut previous: Option<u64> = None;
    for (tick, input) in inputs.into_iter().enumerate() {
        let tick = tick as u64;
        c.update(input, tick);
        if c.moved() {
            // Updates only to the tick of a movement.
            assert_eq!(c.last_movement(), Some(tick));
        } else {
            assert_eq!(c.last_movement(), previous);
        }
        // Never decreases across increasing ticks.
        if let (Some(p), Some(n)) = (previous, c.last_movement()) {
            assert!(n >= p);
        }
        previous = c.last_movement();
    }
    assert_eq!(c.last_movement(), Some(2));
}

#[test]
fn threshold_reconfiguration_suppresses() {
    // The seed sequence declares movement at the default threshold...
    let mut c = PotConditioner::new(50, (0, 4095), (0, 4095));
    let inputs = [503, 847, 1050, 1030, 1052, 1049, 1047, 1052, 1050];
    let mut any_moved = false;
    for (tick, input) in inputs.into_iter().enumerate() {
        c.update(input, tick as u64);
        any_moved = any_moved || c.moved();
    }
    assert!(any_moved);

    // ...but with the threshold raised to 255 the same sequence no longer
    // does, all else equal.
    let mut c = PotConditioner::new(50, (0, 4095), (0, 4095));
    c.set_movement_threshold(255);
    for (tick, input) in inputs.into_iter().enumerate() {
        c.update(input, tick as u64);
        assert!(!c.moved());
        assert_eq!(c.last_movement(), None);
    }
}

#[test]
fn initial_state() {
    let c = PotConditioner::new(50, (0, 4095), (0, 1023));
    assert_eq!(c.value(), 0);
    assert_eq!(c.delta(), 0);
    assert_eq!(c.velocity(), 0);
    assert!(!c.moved());
    assert_eq!(c.last_movement(), None);
    assert_eq!(c.output_range(), (0, 1023));
}

#[test]
fn output_range_reconfiguration() {
    let mut c = PotConditioner::new(50, (0, 4095), (0, 4095));
    for tick in 0..6u64 {
        c.update(2000, tick);
    }
    assert!(c.value() > 100);

    c.set_output_range(0, 100);
    assert_eq!(c.output_range(), (0, 100));

    // The next update clamps into the new span.
    let out = c.update(2000, 6);
    assert!((0..=100).contains(&out));
}

#[test]
fn rescale_exact_values() {
    // The seed geometry: input span shrunk by the deadband half-width.
    assert_eq!(pot_conditioner::rescale_and_clamp(1050, 3, 4092, 0, 4095), 1048);
    // Identity-like mapping at the borders.
    assert_eq!(pot_conditioner::rescale_and_clamp(3, 3, 4092, 0, 4095), 0);
    assert_eq!(pot_conditioner::rescale_and_clamp(4092, 3, 4092, 0, 4095), 4095);
    // Clamping on both sides.
    assert_eq!(pot_conditioner::rescale_and_clamp(5000, 3, 4092, 0, 4095), 4095);
    assert_eq!(pot_conditioner::rescale_and_clamp(-100, 3, 4092, 0, 4095), 0);
    // Plain span change.
    assert_eq!(pot_conditioner::rescale_and_clamp(-50, -100, 100, -1000, 1000), -500);
    // A value below the input span maps below the output span and clamps.
    assert_eq!(pot_conditioner::rescale_and_clamp(-1, 0, 3, -10, 10), -10);
    // Small spans truncate toward zero as well.
    assert_eq!(pot_conditioner::rescale_and_clamp(1, 0, 3, 0, 2), 0);
}
