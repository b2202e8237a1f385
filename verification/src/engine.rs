//! The executable engine: the sensor record and the control system, with the
//! simulator tick and the operator commands, each proved to realise the
//! transition functions of the model.

use vstd::prelude::*;
use vstd::string::StringExecFns;
use crate::model::{
    Command, Mode, SensorModel, StateModel, default_motor_states, diagnostic_lines,
    initial_sensors, initial_t, lemma_tick_preserves_inv, motor_step, pressure_step, reset_t,
    run_diagnostic_t, settle_t, shutdown_t, status_text, step, temp_step, tick_t,
    PRESSURE_MAX_CENTI, PRESSURE_MIN_CENTI, TEMP_MAX_CENTI, TEMP_MIN_CENTI,
};
use crate::rng::{lemma_nth_seed_add, nth_seed, random};

verus! {

/// The sensor record. Temperatures are hundredths of a degree Celsius,
/// pressures hundredths of a kilopascal, motor speeds RPM; `motor_states`
/// is index-aligned with `motor_speeds` (true = running); `last_update` is
/// the timestamp, in milliseconds, of the most recent simulator tick.
pub struct SensorData {
    pub temperatures: Vec<i32>,
    pub pressures: Vec<i32>,
    pub motor_speeds: Vec<u16>,
    pub motor_states: Vec<bool>,
    pub safety_interlocks: bool,
    pub last_update: u64,
}

impl View for SensorData {
    type V = SensorModel;

    open spec fn view(&self) -> SensorModel {
        SensorModel {
            temperatures: self.temperatures@.map_values(|t: i32| t as int),
            pressures: self.pressures@.map_values(|p: i32| p as int),
            motor_speeds: self.motor_speeds@.map_values(|m: u16| m as int),
            motor_states: self.motor_states@,
            safety_interlocks: self.safety_interlocks,
            last_update: self.last_update as int,
        }
    }
}

impl Default for SensorData {
    /// The fixed default configuration the engine starts from.
    fn default() -> (s: SensorData)
        ensures
            s@ == initial_sensors(),
    {
        let s = SensorData {
            temperatures: vec![2350, 2410, 2280, 2500],
            pressures: vec![10130, 9870, 10210],
            motor_speeds: vec![1750, 1800, 0, 2200],
            motor_states: vec![true, true, false, true],
            safety_interlocks: true,
            last_update: 0,
        };
        proof {
            assert(s@ =~= initial_sensors());
        }
        s
    }
}

/// An element-for-element copy of a vector of plain values.
fn copy_vec<T: Copy>(v: &Vec<T>) -> (out: Vec<T>)
    ensures
        out@ == v@,
{
    let mut out: Vec<T> = Vec::new();
    let mut j: usize = 0;
    while j < v.len()
        invariant
            j <= v@.len(),
            out@ == v@.subrange(0, j as int),
        decreases v@.len() - j,
    {
        out.push(v[j]);
        j += 1;
        proof {
            assert(out@ =~= v@.subrange(0, j as int));
        }
    }
    proof {
        assert(out@ =~= v@);
    }
    out
}

/// One tick's pass over the temperatures: each moves by a fresh draw's delta
/// and is clamped to its band. Returns the new readings and the seed after
/// one draw per reading.
fn step_temperatures(v: &Vec<i32>, seed: u64) -> (out: (Vec<i32>, u64))
    requires
        forall|i: int| 0 <= i < v@.len() ==> TEMP_MIN_CENTI <= #[trigger] v@[i] <= TEMP_MAX_CENTI,
    ensures
        out.0@.len() == v@.len(),
        forall|i: int|
            0 <= i < v@.len() ==> #[trigger] out.0@[i] as int == temp_step(
                v@[i] as int,
                nth_seed(seed, (i + 1) as nat),
            ),
        out.1 == nth_seed(seed, v@.len() as nat),
{
    let mut out: Vec<i32> = Vec::new();
    let mut s: u64 = seed;
    let mut j: usize = 0;
    while j < v.len()
        invariant
            j <= v@.len(),
            out@.len() == j,
            forall|i: int|
                0 <= i < j ==> #[trigger] out@[i] as int == temp_step(
                    v@[i] as int,
                    nth_seed(seed, (i + 1) as nat),
                ),
            s == nth_seed(seed, j as nat),
            forall|i: int| 0 <= i < v@.len() ==> TEMP_MIN_CENTI <= #[trigger] v@[i]
                <= TEMP_MAX_CENTI,
        decreases v@.len() - j,
    {
        let r: u64 = random(s);
        proof {
            assert(r == nth_seed(seed, (j + 1) as nat));
        }
        s = r;
        let delta: i32 = (r % 21) as i32 - 10;
        let moved: i32 = v[j] + delta;
        let clamped: i32 = if moved < TEMP_MIN_CENTI {
            TEMP_MIN_CENTI
        } else if moved > TEMP_MAX_CENTI {
            TEMP_MAX_CENTI
        } else {
            moved
        };
        out.push(clamped);
        j += 1;
    }
    (out, s)
}

/// One tick's pass over the pressures, as for the temperatures.
fn step_pressures(v: &Vec<i32>, seed: u64) -> (out: (Vec<i32>, u64))
    requires
        forall|i: int|
            0 <= i < v@.len() ==> PRESSURE_MIN_CENTI <= #[trigger] v@[i] <= PRESSURE_MAX_CENTI,
    ensures
        out.0@.len() == v@.len(),
        forall|i: int|
            0 <= i < v@.len() ==> #[trigger] out.0@[i] as int == pressure_step(
                v@[i] as int,
                nth_seed(seed, (i + 1) as nat),
            ),
        out.1 == nth_seed(seed, v@.len() as nat),
{
    let mut out: Vec<i32> = Vec::new();
    let mut s: u64 = seed;
    let mut j: usize = 0;
    while j < v.len()
        invariant
            j <= v@.len(),
            out@.len() == j,
            forall|i: int|
                0 <= i < j ==> #[trigger] out@[i] as int == pressure_step(
                    v@[i] as int,
                    nth_seed(seed, (i + 1) as nat),
                ),
            s == nth_seed(seed, j as nat),
            forall|i: int| 0 <= i < v@.len() ==> PRESSURE_MIN_CENTI <= #[trigger] v@[i]
                <= PRESSURE_MAX_CENTI,
        decreases v@.len() - j,
    {
        let r: u64 = random(s);
        proof {
            assert(r == nth_seed(seed, (j + 1) as nat));
        }
        s = r;
        let delta: i32 = (r % 51) as i32 - 25;
        let moved: i32 = v[j] + delta;
        let clamped: i32 = if moved < PRESSURE_MIN_CENTI {
            PRESSURE_MIN_CENTI
        } else if moved > PRESSURE_MAX_CENTI {
            PRESSURE_MAX_CENTI
        } else {
            moved
        };
        out.push(clamped);
        j += 1;
    }
    (out, s)
}

/// One tick's pass over the motors: a running motor's speed becomes its base
/// speed plus a fresh draw's offset below 100 RPM; a stopped motor is left
/// untouched. One draw is consumed per motor, running or not.
fn step_motor_speeds(speeds: &Vec<u16>, states: &Vec<bool>, seed: u64) -> (out: (Vec<u16>, u64))
    requires
        speeds@.len() == states@.len(),
        speeds@.len() <= 4,
    ensures
        out.0@.len() == speeds@.len(),
        forall|i: int|
            0 <= i < speeds@.len() ==> #[trigger] out.0@[i] as int == (if states@[i] {
                motor_step(i, nth_seed(seed, (i + 1) as nat))
            } else {
                speeds@[i] as int
            }),
        out.1 == nth_seed(seed, speeds@.len() as nat),
{
    let mut out: Vec<u16> = Vec::new();
    let mut s: u64 = seed;
    let mut j: usize = 0;
    while j < speeds.len()
        invariant
            j <= speeds@.len(),
            speeds@.len() == states@.len(),
            speeds@.len() <= 4,
            out@.len() == j,
            forall|i: int|
                0 <= i < j ==> #[trigger] out@[i] as int == (if states@[i] {
                    motor_step(i, nth_seed(seed, (i + 1) as nat))
                } else {
                    speeds@[i] as int
                }),
            s == nth_seed(seed, j as nat),
        decreases speeds@.len() - j,
    {
        let r: u64 = random(s);
        proof {
            assert(r == nth_seed(seed, (j + 1) as nat));
        }
        s = r;
        if states[j] {
            let next: u16 = 1750 + 50 * (j as u16) + (r % 100) as u16;
            out.push(next);
        } else {
            out.push(speeds[j]);
        }
        j += 1;
    }
    (out, s)
}

/// Produce the fixed, ordered diagnostic report of a synthetic self-test.
/// It reads nothing and mutates nothing.
pub fn diagnostic_report() -> (log: Vec<String>)
    ensures
        log.deep_view() == diagnostic_lines(),
{
    let mut log: Vec<String> = Vec::new();
    log.push(String::from_str("=== FORLENZA INDUSTRIAL DIAGNOSTIC ==="));
    log.push(String::from_str("System ID: FIS-CTRL-7001"));
    log.push(String::from_str("Initializing legacy hardware interfaces..."));
    log.push(String::from_str("Checking Windows 7 compatibility... ✓"));
    log.push(String::from_str("Loading legacy PLC drivers... ✓"));
    log.push(String::from_str("Connecting to industrial network... ✓"));
    log.push(String::from_str("Verifying safety interlocks... ✓"));
    log.push(String::from_str("Diagnostic Complete - All Systems Operational"));
    proof {
        assert(log.deep_view() =~= diagnostic_lines());
    }
    log
}

/// The engine: the shared sensor record, the capability verdict taken once
/// at construction, the operational mode, the diagnostic state and the
/// generator seed. All mutation goes through the methods below, each of
/// which realises the corresponding transition of the model.
pub struct ControlSystem {
    pub system_compatible: bool,
    pub error_message: String,
    pub sensor_data: SensorData,
    pub mode: Mode,
    pub diagnostic_running: bool,
    pub diagnostic_log: Vec<String>,
    pub rng_seed: u64,
}

impl View for ControlSystem {
    type V = StateModel;

    open spec fn view(&self) -> StateModel {
        StateModel {
            compatible: self.system_compatible,
            error_message: self.error_message@,
            sensors: self.sensor_data@,
            mode: self.mode,
            diagnostic_running: self.diagnostic_running,
            diagnostic_log: self.diagnostic_log.deep_view(),
            seed: self.rng_seed,
        }
    }
}

impl ControlSystem {
    /// Construct an engine. `compatible` is the capability verdict the
    /// environment supplies, `error_message` the reason text when it is
    /// false, and `seed` starts this engine's pseudo-random generator. The
    /// sensor record begins at the fixed default configuration, in `Normal`
    /// mode with no diagnostic run.
    pub fn new(compatible: bool, error_message: String, seed: u64) -> (c: ControlSystem)
        ensures
            c@ == initial_t(compatible, error_message@, seed),
            c@.inv(),
    {
        let ghost reason = error_message@;
        let c = ControlSystem {
            system_compatible: compatible,
            error_message,
            sensor_data: SensorData::default(),
            mode: Mode::Normal,
            diagnostic_running: false,
            diagnostic_log: Vec::new(),
            rng_seed: seed,
        };
        proof {
            assert(c@.diagnostic_log =~= Seq::<Seq<char>>::empty());
            assert(c@ =~= initial_t(compatible, reason, seed));
        }
        c
    }

    /// A consistent copy of the sensor record, for display.
    pub fn snapshot(&self) -> (s: SensorData)
        ensures
            s@ == self@.sensors,
    {
        let s = SensorData {
            temperatures: copy_vec(&self.sensor_data.temperatures),
            pressures: copy_vec(&self.sensor_data.pressures),
            motor_speeds: copy_vec(&self.sensor_data.motor_speeds),
            motor_states: copy_vec(&self.sensor_data.motor_states),
            safety_interlocks: self.sensor_data.safety_interlocks,
            last_update: self.sensor_data.last_update,
        };
        proof {
            assert(s@ =~= self@.sensors);
        }
        s
    }

    /// The status line for the display header.
    pub fn connection_status(&self) -> (r: String)
        ensures
            r@ == status_text(self@),
    {
        if !self.system_compatible {
            String::from_str("System Incompatible")
        } else if self.mode == Mode::EmergencyShutdown {
            String::from_str("EMERGENCY SHUTDOWN ACTIVE")
        } else {
            String::from_str("Connected to Legacy PLCs")
        }
    }

    /// One simulator tick at timestamp `now` (milliseconds): perturb every
    /// temperature, every pressure and every running motor's speed with
    /// fresh draws, clamp the readings to their bands, record the timestamp
    /// and advance the seed. An incompatible engine is left untouched. The
    /// mode, run states, interlocks and diagnostic state never change.
    pub fn tick(&mut self, now: u64)
        requires
            old(self)@.inv(),
        ensures
            final(self)@ == tick_t(old(self)@, now as int),
            final(self)@.inv(),
    {
        if !self.system_compatible {
            return ;
        }
        let ghost s0 = self.rng_seed;
        let ghost m = old(self)@.sensors;
        proof {
            assert forall|i: int| 0 <= i < self.sensor_data.temperatures@.len()
                implies TEMP_MIN_CENTI <= #[trigger] self.sensor_data.temperatures@[i]
                <= TEMP_MAX_CENTI by {
                assert(m.temperatures[i] == self.sensor_data.temperatures@[i] as int);
            }
            assert forall|i: int| 0 <= i < self.sensor_data.pressures@.len()
                implies PRESSURE_MIN_CENTI <= #[trigger] self.sensor_data.pressures@[i]
                <= PRESSURE_MAX_CENTI by {
                assert(m.pressures[i] == self.sensor_data.pressures@[i] as int);
            }
        }
        let temps: (Vec<i32>, u64) = step_temperatures(&self.sensor_data.temperatures, self.rng_seed);
        let press: (Vec<i32>, u64) = step_pressures(&self.sensor_data.pressures, temps.1);
        let motors: (Vec<u16>, u64) = step_motor_speeds(
            &self.sensor_data.motor_speeds,
            &self.sensor_data.motor_states,
            press.1,
        );
        self.sensor_data.temperatures = temps.0;
        self.sensor_data.pressures = press.0;
        self.sensor_data.motor_speeds = motors.0;
        self.sensor_data.last_update = now;
        self.rng_seed = motors.1;
        proof {
            let target = tick_t(old(self)@, now as int);
            lemma_nth_seed_add(s0, 4, 3);
            lemma_nth_seed_add(s0, 7, 4);
            assert forall|i: int| 0 <= i < 3 implies #[trigger] self@.sensors.pressures[i]
                == target.sensors.pressures[i] by {
                lemma_nth_seed_add(s0, 4, (i + 1) as nat);
            }
            assert forall|i: int| 0 <= i < 4 implies #[trigger] self@.sensors.motor_speeds[i]
                == target.sensors.motor_speeds[i] by {
                lemma_nth_seed_add(s0, 7, (i + 1) as nat);
            }
            assert(self@.sensors =~= target.sensors);
            assert(self@ =~= target);
            lemma_tick_preserves_inv(old(self)@, now as int);
        }
    }

    /// The `RunDiagnostic` command: effective only on a compatible engine in
    /// `Normal` mode with no diagnostic already in progress, where it marks
    /// one as running and replaces the log with the fixed report; otherwise
    /// a silent no-op. The settle delay is the caller's: after it elapses,
    /// the caller hands control back through `complete_diagnostic`.
    pub fn run_diagnostic(&mut self)
        requires
            old(self)@.inv(),
        ensures
            final(self)@ == run_diagnostic_t(old(self)@),
            final(self)@.inv(),
    {
        if !self.system_compatible || self.diagnostic_running {
            return ;
        }
        if self.mode != Mode::Normal {
            return ;
        }
        self.diagnostic_running = true;
        self.diagnostic_log = diagnostic_report();
        proof {
            assert(self@ =~= run_diagnostic_t(old(self)@));
        }
    }

    /// The deferred completion of a diagnostic run: called once the settle
    /// delay has elapsed, it clears the in-progress flag and nothing else.
    pub fn complete_diagnostic(&mut self)
        requires
            old(self)@.inv(),
        ensures
            final(self)@ == settle_t(old(self)@),
            final(self)@.inv(),
    {
        if !self.system_compatible {
            return ;
        }
        self.diagnostic_running = false;
        proof {
            assert(self@ =~= settle_t(old(self)@));
        }
    }

    /// The `EmergencyShutdown` command: on a compatible engine, stop every
    /// motor at zero RPM, engage the interlocks and enter
    /// `EmergencyShutdown` mode, atomically with respect to ticks; valid in
    /// any mode and idempotent.
    pub fn emergency_shutdown(&mut self)
        requires
            old(self)@.inv(),
        ensures
            final(self)@ == shutdown_t(old(self)@),
            final(self)@.inv(),
    {
        if !self.system_compatible {
            return ;
        }
        let n: usize = self.sensor_data.motor_speeds.len();
        let mut speeds: Vec<u16> = Vec::new();
        let mut states: Vec<bool> = Vec::new();
        let mut j: usize = 0;
        while j < n
            invariant
                j <= n,
                speeds@.len() == j,
                states@.len() == j,
                forall|i: int| 0 <= i < j ==> #[trigger] speeds@[i] == 0,
                forall|i: int| 0 <= i < j ==> #[trigger] states@[i] == false,
            decreases n - j,
        {
            speeds.push(0);
            states.push(false);
            j += 1;
        }
        self.sensor_data.motor_speeds = speeds;
        self.sensor_data.motor_states = states;
        self.sensor_data.safety_interlocks = true;
        self.mode = Mode::EmergencyShutdown;
        proof {
            assert(self@.sensors =~= shutdown_t(old(self)@).sensors);
            assert(self@ =~= shutdown_t(old(self)@));
        }
    }

    /// The `Reset` command: effective only in `EmergencyShutdown` on a
    /// compatible engine, where it restores the default run configuration
    /// (motors 1, 2 and 4 running, motor 3 stopped), recomputes each running
    /// motor's speed as its base speed with zero offset, and returns to
    /// `Normal`; otherwise a silent no-op.
    pub fn reset(&mut self)
        requires
            old(self)@.inv(),
        ensures
            final(self)@ == reset_t(old(self)@),
            final(self)@.inv(),
    {
        if !self.system_compatible {
            return ;
        }
        if self.mode != Mode::EmergencyShutdown {
            return ;
        }
        self.sensor_data.motor_states = vec![true, true, false, true];
        self.sensor_data.motor_speeds = vec![1750, 1800, 0, 1900];
        self.mode = Mode::Normal;
        proof {
            let target = reset_t(old(self)@);
            assert(self@.sensors.motor_states =~= default_motor_states());
            assert forall|i: int| 0 <= i < 4 implies #[trigger] self@.sensors.motor_speeds[i]
                == target.sensors.motor_speeds[i] by {
                assert(default_motor_states()[i] == (i != 2));
            }
            assert(self@.sensors =~= target.sensors);
            assert(self@ =~= target);
        }
    }

    /// Dispatch an operator command to its handler.
    pub fn apply(&mut self, c: Command)
        requires
            old(self)@.inv(),
        ensures
            final(self)@ == step(old(self)@, c),
            final(self)@.inv(),
    {
        match c {
            Command::RunDiagnostic => self.run_diagnostic(),
            Command::EmergencyShutdown => self.emergency_shutdown(),
            Command::Reset => self.reset(),
        }
    }
}

} // verus!
