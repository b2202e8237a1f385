//! Mathematical model of the engine: an abstract state record, the
//! transition functions for simulator ticks and operator commands, the state
//! invariant, and the laws that hold of them.

use vstd::prelude::*;
use crate::rng::nth_seed;

verus! {

/// Operational mode of the control state machine.
#[derive(Clone, Copy, PartialEq, Eq, Structural, Debug)]
pub enum Mode {
    Normal,
    EmergencyShutdown,
}

/// An operator command, as issued by the presentation layer.
#[derive(Clone, Copy, PartialEq, Eq, Structural, Debug)]
pub enum Command {
    RunDiagnostic,
    EmergencyShutdown,
    Reset,
}

/// Abstract view of the sensor record. Temperatures are hundredths of a
/// degree Celsius, pressures hundredths of a kilopascal, motor speeds RPM.
#[verifier::ext_equal]
pub struct SensorModel {
    pub temperatures: Seq<int>,
    pub pressures: Seq<int>,
    pub motor_speeds: Seq<int>,
    pub motor_states: Seq<bool>,
    pub safety_interlocks: bool,
    pub last_update: int,
}

/// Abstract view of the whole engine: the capability verdict taken at
/// construction, the sensor record, the state machine's mode, the diagnostic
/// flag and log, and the generator seed.
#[verifier::ext_equal]
pub struct StateModel {
    pub compatible: bool,
    pub error_message: Seq<char>,
    pub sensors: SensorModel,
    pub mode: Mode,
    pub diagnostic_running: bool,
    pub diagnostic_log: Seq<Seq<char>>,
    pub seed: u64,
}

/// Anything the engine does between two observations: a simulator tick (with
/// its timestamp), an operator command, or the settling of a diagnostic run.
pub enum Event {
    Tick(int),
    Cmd(Command),
    Settle,
}

pub const TEMP_MIN_CENTI: i32 = 2000;

pub const TEMP_MAX_CENTI: i32 = 3000;

pub const PRESSURE_MIN_CENTI: i32 = 9500;

pub const PRESSURE_MAX_CENTI: i32 = 10500;

impl SensorModel {
    /// Well-formedness of the sensor record: the fixed configuration has
    /// four temperature sensors, three pressure gauges and four motors;
    /// readings stay clamped to their bands; a stopped motor reads zero RPM;
    /// speeds fit the 16-bit registers they are kept in.
    pub open spec fn wf(self) -> bool {
        &&& self.temperatures.len() == 4
        &&& self.pressures.len() == 3
        &&& self.motor_speeds.len() == 4
        &&& self.motor_states.len() == 4
        &&& forall|i: int|
            0 <= i < self.temperatures.len() ==> TEMP_MIN_CENTI <= #[trigger] self.temperatures[i]
                <= TEMP_MAX_CENTI
        &&& forall|i: int|
            0 <= i < self.pressures.len() ==> PRESSURE_MIN_CENTI <= #[trigger] self.pressures[i]
                <= PRESSURE_MAX_CENTI
        &&& forall|i: int|
            0 <= i < self.motor_speeds.len() ==> 0 <= #[trigger] self.motor_speeds[i] <= u16::MAX
        &&& forall|i: int|
            0 <= i < self.motor_states.len() ==> (!(#[trigger] self.motor_states[i])
                ==> self.motor_speeds[i] == 0)
        &&& 0 <= self.last_update
    }

    /// The shutdown postcondition: every motor stopped at zero RPM and the
    /// safety interlocks engaged.
    pub open spec fn all_stopped(self) -> bool {
        &&& self.safety_interlocks
        &&& forall|i: int| 0 <= i < self.motor_states.len() ==> !(#[trigger] self.motor_states[i])
        &&& forall|i: int| 0 <= i < self.motor_speeds.len() ==> #[trigger] self.motor_speeds[i] == 0
    }
}

impl StateModel {
    /// The engine invariant: the sensor record is well formed, and while the
    /// mode is `EmergencyShutdown` the shutdown postcondition holds.
    pub open spec fn inv(self) -> bool {
        &&& self.sensors.wf()
        &&& self.mode == Mode::EmergencyShutdown ==> self.sensors.all_stopped()
    }
}

/// Clamp `x` into `[lo, hi]`.
pub open spec fn clamp(x: int, lo: int, hi: int) -> int {
    if x < lo {
        lo
    } else if x > hi {
        hi
    } else {
        x
    }
}

/// A tick moves a temperature by a delta drawn uniformly from -0.10 to +0.10
/// degrees (in hundredths), then clamps it to the 20.00 - 30.00 band.
pub open spec fn temp_step(t: int, r: u64) -> int {
    clamp(t + (r % 21) as int - 10, TEMP_MIN_CENTI as int, TEMP_MAX_CENTI as int)
}

/// A tick moves a pressure by a delta drawn uniformly from -0.25 to +0.25
/// kilopascals (in hundredths), then clamps it to the 95.00 - 105.00 band.
pub open spec fn pressure_step(p: int, r: u64) -> int {
    clamp(p + (r % 51) as int - 25, PRESSURE_MIN_CENTI as int, PRESSURE_MAX_CENTI as int)
}

/// Base speed of motor `i`: 1750 RPM plus 50 per index.
pub open spec fn base_speed(i: int) -> int {
    1750 + 50 * i
}

/// A tick sets a running motor's speed to its base speed plus a small
/// pseudo-random offset below 100 RPM.
pub open spec fn motor_step(i: int, r: u64) -> int {
    base_speed(i) + (r % 100) as int
}

/// One simulator tick at timestamp `now`. An incompatible engine never
/// ticks. Otherwise every temperature, every pressure and every running
/// motor's speed is perturbed with a fresh draw from the generator, in that
/// order; stopped motors are left untouched; the timestamp is recorded and
/// the seed advances by the number of draws.
pub open spec fn tick_t(s: StateModel, now: int) -> StateModel {
    if !s.compatible {
        s
    } else {
        let nt = s.sensors.temperatures.len() as int;
        let np = s.sensors.pressures.len() as int;
        let nm = s.sensors.motor_speeds.len() as int;
        StateModel {
            sensors: SensorModel {
                temperatures: Seq::new(
                    s.sensors.temperatures.len(),
                    |i: int| temp_step(s.sensors.temperatures[i], nth_seed(s.seed, (i + 1) as nat)),
                ),
                pressures: Seq::new(
                    s.sensors.pressures.len(),
                    |i: int|
                        pressure_step(
                            s.sensors.pressures[i],
                            nth_seed(s.seed, (nt + i + 1) as nat),
                        ),
                ),
                motor_speeds: Seq::new(
                    s.sensors.motor_speeds.len(),
                    |i: int|
                        if s.sensors.motor_states[i] {
                            motor_step(i, nth_seed(s.seed, (nt + np + i + 1) as nat))
                        } else {
                            s.sensors.motor_speeds[i]
                        },
                ),
                last_update: now,
                ..s.sensors
            },
            seed: nth_seed(s.seed, (nt + np + nm) as nat),
            ..s
        }
    }
}

/// The emergency-shutdown transition: on a compatible engine, stop every
/// motor at zero RPM, engage the interlocks and enter `EmergencyShutdown`;
/// valid in any mode. An incompatible engine ignores it.
pub open spec fn shutdown_t(s: StateModel) -> StateModel {
    if !s.compatible {
        s
    } else {
        StateModel {
            sensors: SensorModel {
                motor_speeds: Seq::new(s.sensors.motor_speeds.len(), |i: int| 0),
                motor_states: Seq::new(s.sensors.motor_states.len(), |i: int| false),
                safety_interlocks: true,
                ..s.sensors
            },
            mode: Mode::EmergencyShutdown,
            ..s
        }
    }
}

/// The default run configuration restored by a reset: motors 1, 2 and 4
/// running, motor 3 stopped.
pub open spec fn default_motor_states() -> Seq<bool> {
    seq![true, true, false, true]
}

/// The reset transition: effective only in `EmergencyShutdown` on a
/// compatible engine. It restores the default run configuration, recomputes
/// each running motor's speed as its base speed with zero offset, leaves
/// stopped motors at zero, and returns to `Normal`. Anywhere else it is a
/// silent no-op.
pub open spec fn reset_t(s: StateModel) -> StateModel {
    if s.compatible && s.mode == Mode::EmergencyShutdown {
        StateModel {
            sensors: SensorModel {
                motor_states: default_motor_states(),
                motor_speeds: Seq::new(
                    default_motor_states().len(),
                    |i: int|
                        if default_motor_states()[i] {
                            base_speed(i)
                        } else {
                            0
                        },
                ),
                ..s.sensors
            },
            mode: Mode::Normal,
            ..s
        }
    } else {
        s
    }
}

/// The fixed, ordered diagnostic report.
pub open spec fn diagnostic_lines() -> Seq<Seq<char>> {
    seq![
        "=== FORLENZA INDUSTRIAL DIAGNOSTIC ==="@,
        "System ID: FIS-CTRL-7001"@,
        "Initializing legacy hardware interfaces..."@,
        "Checking Windows 7 compatibility... ✓"@,
        "Loading legacy PLC drivers... ✓"@,
        "Connecting to industrial network... ✓"@,
        "Verifying safety interlocks... ✓"@,
        "Diagnostic Complete - All Systems Operational"@,
    ]
}

/// The run-diagnostic transition: effective only in `Normal`, on a
/// compatible engine, while no diagnostic is in progress. It marks a
/// diagnostic as running and replaces the log with the fixed report; it
/// never touches the sensor record or the mode. Anywhere else it is a
/// silent no-op.
pub open spec fn run_diagnostic_t(s: StateModel) -> StateModel {
    if s.compatible && s.mode == Mode::Normal && !s.diagnostic_running {
        StateModel { diagnostic_running: true, diagnostic_log: diagnostic_lines(), ..s }
    } else {
        s
    }
}

/// The settling of a diagnostic run, after the deferred delay elapses:
/// clears the in-progress flag and nothing else. An incompatible engine
/// ignores it.
pub open spec fn settle_t(s: StateModel) -> StateModel {
    if !s.compatible {
        s
    } else {
        StateModel { diagnostic_running: false, ..s }
    }
}

/// Dispatch of an operator command to its transition.
pub open spec fn step(s: StateModel, c: Command) -> StateModel {
    match c {
        Command::RunDiagnostic => run_diagnostic_t(s),
        Command::EmergencyShutdown => shutdown_t(s),
        Command::Reset => reset_t(s),
    }
}

/// Dispatch of any event, ticks and settling included.
pub open spec fn step_event(s: StateModel, e: Event) -> StateModel {
    match e {
        Event::Tick(now) => tick_t(s, now),
        Event::Cmd(c) => step(s, c),
        Event::Settle => settle_t(s),
    }
}

/// The status line a display shows beside the header.
pub open spec fn status_text(s: StateModel) -> Seq<char> {
    if !s.compatible {
        "System Incompatible"@
    } else if s.mode == Mode::EmergencyShutdown {
        "EMERGENCY SHUTDOWN ACTIVE"@
    } else {
        "Connected to Legacy PLCs"@
    }
}

/// The engine after a whole history of events, applied in order.
pub open spec fn run(s: StateModel, es: Seq<Event>) -> StateModel
    decreases es.len(),
{
    if es.len() == 0 {
        s
    } else {
        run(step_event(s, es[0]), es.subrange(1, es.len() as int))
    }
}

/// The sensor record the engine is built with.
pub open spec fn initial_sensors() -> SensorModel {
    SensorModel {
        temperatures: seq![2350int, 2410int, 2280int, 2500int],
        pressures: seq![10130int, 9870int, 10210int],
        motor_speeds: seq![1750int, 1800int, 0int, 2200int],
        motor_states: seq![true, true, false, true],
        safety_interlocks: true,
        last_update: 0,
    }
}

/// The engine as constructed: default sensors, `Normal` mode, no diagnostic,
/// an empty log, and the capability verdict and seed as injected.
pub open spec fn initial_t(compatible: bool, error_message: Seq<char>, seed: u64) -> StateModel {
    StateModel {
        compatible,
        error_message,
        sensors: initial_sensors(),
        mode: Mode::Normal,
        diagnostic_running: false,
        diagnostic_log: Seq::empty(),
        seed,
    }
}

/// A simulator tick preserves the invariant: readings stay clamped to their
/// bands, stopped motors stay at zero, and a shutdown in force is not
/// disturbed. It also never changes the mode, the run states, the interlocks
/// or the diagnostic state.
pub proof fn lemma_tick_preserves_inv(s: StateModel, now: int)
    requires
        s.inv(),
        0 <= now,
    ensures
        tick_t(s, now).inv(),
        tick_t(s, now).mode == s.mode,
        tick_t(s, now).sensors.motor_states == s.sensors.motor_states,
        tick_t(s, now).sensors.safety_interlocks == s.sensors.safety_interlocks,
        tick_t(s, now).diagnostic_running == s.diagnostic_running,
        tick_t(s, now).diagnostic_log == s.diagnostic_log,
{
    if s.compatible {
        let t = tick_t(s, now);
        assert forall|i: int| 0 <= i < t.sensors.motor_speeds.len() implies 0 <= #[trigger] t
            .sensors
            .motor_speeds[i] <= u16::MAX && (!t.sensors.motor_states[i]
            ==> t.sensors.motor_speeds[i] == 0) by {
            if s.sensors.motor_states[i] {
                assert(0 <= i < 4);
                assert(base_speed(i) <= 1900);
            }
        }
    }
}

/// Every operator command preserves the invariant; in particular, right
/// after an effective emergency shutdown every motor is stopped at zero RPM
/// with the interlocks engaged.
pub proof fn lemma_step_preserves_inv(s: StateModel, c: Command)
    requires
        s.inv(),
    ensures
        step(s, c).inv(),
{
}

/// Settling a diagnostic preserves the invariant.
pub proof fn lemma_settle_preserves_inv(s: StateModel)
    requires
        s.inv(),
    ensures
        settle_t(s).inv(),
{
}

/// Over any history of ticks, commands and settlings with nonnegative
/// timestamps, the invariant holds in every reachable state: readings stay
/// clamped to their bands, and whenever the mode is `EmergencyShutdown`,
/// every motor is stopped at zero RPM and the interlocks are engaged.
pub proof fn lemma_run_preserves_inv(s: StateModel, es: Seq<Event>)
    requires
        s.inv(),
        forall|i: int| 0 <= i < es.len() ==> (#[trigger] es[i] matches Event::Tick(now) ==> 0 <= now),
    ensures
        run(s, es).inv(),
    decreases es.len(),
{
    if es.len() > 0 {
        let s1 = step_event(s, es[0]);
        match es[0] {
            Event::Tick(now) => lemma_tick_preserves_inv(s, now),
            Event::Cmd(c) => lemma_step_preserves_inv(s, c),
            Event::Settle => lemma_settle_preserves_inv(s),
        }
        lemma_run_preserves_inv(s1, es.subrange(1, es.len() as int));
    }
}

/// An effective emergency shutdown takes hold at once, and no later
/// simulator tick disturbs it while the mode stays `EmergencyShutdown`: a
/// tick in that mode leaves every motor stopped at zero RPM and the
/// interlocks engaged.
pub proof fn lemma_shutdown_stable_under_tick(s: StateModel, now: int)
    requires
        s.inv(),
        s.mode == Mode::EmergencyShutdown,
        0 <= now,
    ensures
        tick_t(s, now).mode == Mode::EmergencyShutdown,
        tick_t(s, now).sensors.all_stopped(),
{
    lemma_tick_preserves_inv(s, now);
}

/// `Reset` is effective only in `EmergencyShutdown`: issued in `Normal`
/// mode, it leaves the state exactly as it was.
pub proof fn lemma_reset_noop_in_normal(s: StateModel)
    requires
        s.mode == Mode::Normal,
    ensures
        reset_t(s) == s,
{
}

/// A second `RunDiagnostic` before the settle delay elapses is a no-op:
/// one run's log, never two.
pub proof fn lemma_run_diagnostic_idempotent(s: StateModel)
    ensures
        run_diagnostic_t(run_diagnostic_t(s)) == run_diagnostic_t(s),
{
}

/// `EmergencyShutdown` while already shut down changes nothing: the state is
/// unchanged after the first application.
pub proof fn lemma_shutdown_noop_when_applied(s: StateModel)
    requires
        s.inv(),
        s.mode == Mode::EmergencyShutdown,
    ensures
        shutdown_t(s) == s,
{
    if s.compatible {
        assert(shutdown_t(s).sensors =~= s.sensors);
        assert(shutdown_t(s) =~= s);
    }
}

/// `EmergencyShutdown` is idempotent on any state satisfying the invariant.
pub proof fn lemma_shutdown_idempotent(s: StateModel)
    requires
        s.inv(),
    ensures
        shutdown_t(shutdown_t(s)) == shutdown_t(s),
{
    lemma_step_preserves_inv(s, Command::EmergencyShutdown);
    if s.compatible {
        lemma_shutdown_noop_when_applied(shutdown_t(s));
    }
}

/// An incompatible engine is inert: no tick, no command and no settling ever
/// changes its state.
pub proof fn lemma_incompatible_inert(s: StateModel, e: Event)
    requires
        !s.compatible,
    ensures
        step_event(s, e) == s,
{
}

/// An incompatible engine stays inert over any whole history of events.
pub proof fn lemma_incompatible_inert_run(s: StateModel, es: Seq<Event>)
    requires
        !s.compatible,
    ensures
        run(s, es) == s,
    decreases es.len(),
{
    if es.len() > 0 {
        lemma_incompatible_inert(s, es[0]);
        lemma_incompatible_inert_run(s, es.subrange(1, es.len() as int));
    }
}

} // verus!
