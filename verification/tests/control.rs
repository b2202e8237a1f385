use control_core::engine::ControlSystem;
use control_core::model::{Command, Mode};
use control_core::rng::random;

fn compatible_engine(seed: u64) -> ControlSystem {
    ControlSystem::new(true, String::new(), seed)
}

fn incompatible_engine(seed: u64) -> ControlSystem {
    ControlSystem::new(false, "platform not supported".to_string(), seed)
}

const DIAGNOSTIC_LINES: [&str; 8] = [
    "=== FORLENZA INDUSTRIAL DIAGNOSTIC ===",
    "System ID: FIS-CTRL-7001",
    "Initializing legacy hardware interfaces...",
    "Checking Windows 7 compatibility... ✓",
    "Loading legacy PLC drivers... ✓",
    "Connecting to industrial network... ✓",
    "Verifying safety interlocks... ✓",
    "Diagnostic Complete - All Systems Operational",
];

#[test]
fn default_configuration() {
    let c = compatible_engine(1);
    let s = c.snapshot();
    assert_eq!(s.temperatures, vec![2350, 2410, 2280, 2500]);
    assert_eq!(s.pressures, vec![10130, 9870, 10210]);
    assert_eq!(s.motor_speeds, vec![1750, 1800, 0, 2200]);
    assert_eq!(s.motor_states, vec![true, true, false, true]);
    assert!(s.safety_interlocks);
    assert_eq!(s.last_update, 0);
    assert_eq!(c.mode, Mode::Normal);
    assert!(!c.diagnostic_running);
    assert!(c.diagnostic_log.is_empty());
    assert_eq!(c.connection_status(), "Connected to Legacy PLCs");
}

#[test]
fn random_known_values() {
    assert_eq!(random(0), 12345);
    assert_eq!(random(1), 1103527590);
    assert_eq!(random(12345), 13622895711870);
}

#[test]
fn random_matches_wrapping_formula() {
    let mut s: u64 = 987654321;
    for _ in 0..100 {
        let expected = s.wrapping_mul(1103515245).wrapping_add(12345);
        s = random(s);
        assert_eq!(s, expected);
    }
}

#[test]
fn shutdown_then_reset_scenario() {
    let mut c = compatible_engine(7);
    let before = c.snapshot();
    assert_eq!(before.motor_states, vec![true, true, false, true]);
    assert_eq!(before.motor_speeds, vec![1750, 1800, 0, 2200]);

    c.emergency_shutdown();
    let down = c.snapshot();
    assert_eq!(down.motor_speeds, vec![0, 0, 0, 0]);
    assert_eq!(down.motor_states, vec![false, false, false, false]);
    assert!(down.safety_interlocks);
    assert_eq!(c.mode, Mode::EmergencyShutdown);
    assert_eq!(c.connection_status(), "EMERGENCY SHUTDOWN ACTIVE");

    c.reset();
    let up = c.snapshot();
    assert_eq!(up.motor_states, vec![true, true, false, true]);
    assert_eq!(up.motor_speeds, vec![1750, 1800, 0, 1900]);
    assert_eq!(c.mode, Mode::Normal);
    assert_eq!(c.connection_status(), "Connected to Legacy PLCs");
}

#[test]
fn reset_is_noop_in_normal_mode() {
    let mut c = compatible_engine(3);
    c.tick(1000);
    let before = c.snapshot();
    let log_before = c.diagnostic_log.clone();
    let seed_before = c.rng_seed;

    c.reset();

    let after = c.snapshot();
    assert_eq!(after.temperatures, before.temperatures);
    assert_eq!(after.pressures, before.pressures);
    assert_eq!(after.motor_speeds, before.motor_speeds);
    assert_eq!(after.motor_states, before.motor_states);
    assert_eq!(after.safety_interlocks, before.safety_interlocks);
    assert_eq!(after.last_update, before.last_update);
    assert_eq!(c.mode, Mode::Normal);
    assert_eq!(c.diagnostic_log, log_before);
    assert_eq!(c.rng_seed, seed_before);
}

#[test]
fn shutdown_is_idempotent() {
    let mut c = compatible_engine(11);
    c.emergency_shutdown();
    let first = c.snapshot();
    let seed_first = c.rng_seed;

    c.emergency_shutdown();
    c.emergency_shutdown();

    let again = c.snapshot();
    assert_eq!(again.temperatures, first.temperatures);
    assert_eq!(again.pressures, first.pressures);
    assert_eq!(again.motor_speeds, first.motor_speeds);
    assert_eq!(again.motor_states, first.motor_states);
    assert_eq!(again.safety_interlocks, first.safety_interlocks);
    assert_eq!(again.last_update, first.last_update);
    assert_eq!(c.mode, Mode::EmergencyShutdown);
    assert_eq!(c.rng_seed, seed_first);
}

#[test]
fn diagnostic_log_is_exact() {
    let mut c = compatible_engine(5);
    c.run_diagnostic();
    assert!(c.diagnostic_running);
    assert_eq!(c.diagnostic_log.len(), DIAGNOSTIC_LINES.len());
    for (entry, expected) in c.diagnostic_log.iter().zip(DIAGNOSTIC_LINES.iter()) {
        assert_eq!(entry, expected);
    }
}

#[test]
fn second_diagnostic_before_settle_is_suppressed() {
    let mut c = compatible_engine(5);
    c.run_diagnostic();
    let log_first = c.diagnostic_log.clone();

    c.run_diagnostic();

    assert!(c.diagnostic_running);
    assert_eq!(c.diagnostic_log, log_first);
    assert_eq!(c.diagnostic_log.len(), 8);
}

#[test]
fn diagnostic_settles_and_can_run_again() {
    let mut c = compatible_engine(5);
    c.run_diagnostic();
    assert!(c.diagnostic_running);

    c.complete_diagnostic();
    assert!(!c.diagnostic_running);
    assert_eq!(c.diagnostic_log.len(), 8);

    c.run_diagnostic();
    assert!(c.diagnostic_running);
    assert_eq!(c.diagnostic_log.len(), 8);
}

#[test]
fn diagnostic_is_rejected_during_shutdown() {
    let mut c = compatible_engine(5);
    c.emergency_shutdown();
    c.run_diagnostic();
    assert!(!c.diagnostic_running);
    assert!(c.diagnostic_log.is_empty());
}

#[test]
fn incompatible_engine_is_inert() {
    let mut c = incompatible_engine(9);
    assert_eq!(c.connection_status(), "System Incompatible");
    assert_eq!(c.error_message, "platform not supported");
    let before = c.snapshot();
    let seed_before = c.rng_seed;

    for t in 1..50u64 {
        c.tick(t * 1000);
    }
    c.run_diagnostic();
    c.emergency_shutdown();
    c.reset();
    c.complete_diagnostic();

    let after = c.snapshot();
    assert_eq!(after.temperatures, before.temperatures);
    assert_eq!(after.pressures, before.pressures);
    assert_eq!(after.motor_speeds, before.motor_speeds);
    assert_eq!(after.motor_states, before.motor_states);
    assert_eq!(after.safety_interlocks, before.safety_interlocks);
    assert_eq!(after.last_update, 0);
    assert_eq!(c.mode, Mode::Normal);
    assert!(!c.diagnostic_running);
    assert!(c.diagnostic_log.is_empty());
    assert_eq!(c.rng_seed, seed_before);
}

#[test]
fn readings_stay_clamped_over_many_ticks() {
    let mut c = compatible_engine(0xdead_beef);
    for t in 1..=1000u64 {
        c.tick(t * 1000);
        let s = c.snapshot();
        for temp in &s.temperatures {
            assert!((2000..=3000).contains(temp));
        }
        for pressure in &s.pressures {
            assert!((9500..=10500).contains(pressure));
        }
        assert_eq!(s.motor_states, vec![true, true, false, true]);
        assert_eq!(s.motor_speeds[2], 0);
        for (i, speed) in s.motor_speeds.iter().enumerate() {
            if s.motor_states[i] {
                let base = 1750 + 50 * i as u16;
                assert!(*speed >= base && *speed < base + 100);
            }
        }
        assert!(s.safety_interlocks);
        assert_eq!(s.last_update, t * 1000);
    }
}

#[test]
fn ticks_are_deterministic_for_a_seed() {
    let mut a = compatible_engine(424242);
    let mut b = compatible_engine(424242);
    for t in 1..=20u64 {
        a.tick(t);
        b.tick(t);
    }
    let sa = a.snapshot();
    let sb = b.snapshot();
    assert_eq!(sa.temperatures, sb.temperatures);
    assert_eq!(sa.pressures, sb.pressures);
    assert_eq!(sa.motor_speeds, sb.motor_speeds);
    assert_eq!(a.rng_seed, b.rng_seed);
}

#[test]
fn tick_consumes_one_draw_per_sensor_and_motor() {
    let mut c = compatible_engine(31337);
    let mut expected: u64 = 31337;
    c.tick(1);
    // four temperatures, three pressures, four motors
    for _ in 0..11 {
        expected = random(expected);
    }
    assert_eq!(c.rng_seed, expected);
}

#[test]
fn tick_clamps_at_the_band_edges() {
    let mut c = compatible_engine(77);
    c.sensor_data.temperatures = vec![3000, 2000, 3000, 2000];
    c.sensor_data.pressures = vec![10500, 9500, 10500];
    for t in 1..=50u64 {
        c.tick(t);
        let s = c.snapshot();
        for temp in &s.temperatures {
            assert!((2000..=3000).contains(temp));
        }
        for pressure in &s.pressures {
            assert!((9500..=10500).contains(pressure));
        }
    }
}

#[test]
fn shutdown_holds_under_subsequent_ticks() {
    let mut c = compatible_engine(8);
    c.tick(1000);
    c.emergency_shutdown();
    for t in 2..=100u64 {
        c.tick(t * 1000);
        let s = c.snapshot();
        assert_eq!(s.motor_speeds, vec![0, 0, 0, 0]);
        assert_eq!(s.motor_states, vec![false, false, false, false]);
        assert!(s.safety_interlocks);
        assert_eq!(c.mode, Mode::EmergencyShutdown);
    }
}

#[test]
fn apply_dispatches_commands() {
    let mut via_apply = compatible_engine(2);
    let mut direct = compatible_engine(2);

    via_apply.apply(Command::EmergencyShutdown);
    direct.emergency_shutdown();
    assert_eq!(via_apply.mode, direct.mode);
    assert_eq!(via_apply.snapshot().motor_speeds, direct.snapshot().motor_speeds);

    via_apply.apply(Command::Reset);
    direct.reset();
    assert_eq!(via_apply.mode, direct.mode);
    assert_eq!(via_apply.snapshot().motor_speeds, direct.snapshot().motor_speeds);

    via_apply.apply(Command::RunDiagnostic);
    direct.run_diagnostic();
    assert_eq!(via_apply.diagnostic_running, direct.diagnostic_running);
    assert_eq!(via_apply.diagnostic_log, direct.diagnostic_log);
}
