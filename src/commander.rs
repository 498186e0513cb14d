use vstd::prelude::*;

use crate::message::{Command, SensorData};
use crate::mode::{next_mode_state, next_state, SystemMode};
use crate::pid::{PidController, SCALE_DEGRADED, SCALE_FULL};
use crate::quantity::{setpoint, setpoint_of, SensorType, VALUE_LIMIT};
use crate::stats::{sat_add, BenchmarkStats};

verus! {

/// Control period the law is evaluated with, in microseconds.
pub const CONTROL_PERIOD_US: u64 = 5000;

/// Budget for a reading to travel from sensor to commander, in microseconds.
pub const TRANSIT_DEADLINE_US: u64 = 100;

/// What the commander does with anomalous readings in `EmergencyStop`.
#[derive(Debug, Clone, Copy, PartialEq, Eq, Structural)]
pub enum EmergencyPolicy {
    /// Route the reading's value straight through as a command (hold).
    PassThrough,
    /// Halt the whole system.
    Halt,
}

/// The result of handling one reading.
#[derive(Debug, Clone, Copy, PartialEq, Eq, Structural)]
pub enum CommandOutcome {
    /// A command for the registered actuator of its quantity.
    Dispatched(Command),
    /// A command whose quantity has no registered actuator: it is dropped.
    Unrouted(Command),
    /// An anomalous reading that produces no command.
    Withheld,
    /// Stop everything: broadcast an emergency stop and raise an alert.
    EmergencyHalt,
}

/// Gains, in thousandths, of the controller of each quantity.
pub open spec fn default_gains(t: SensorType) -> (i64, i64, i64) {
    match t {
        SensorType::Force => (1500, 100, 50),
        SensorType::Position => (800, 200, 100),
        SensorType::Temperature => (500, 50, 10),
    }
}

/// The output scale, in thousandths, in mode `m`.
pub open spec fn scale_of(m: SystemMode) -> int {
    if m == SystemMode::Degraded {
        SCALE_DEGRADED as int
    } else {
        SCALE_FULL as int
    }
}

/// Timing accumulators after a reading processed at `processed` arrives at
/// `arrival`: the transit time is added and a transit over budget counted.
pub open spec fn after_transit(st: BenchmarkStats, processed: Option<u64>, arrival: u64) -> BenchmarkStats {
    match processed {
        Some(t) => {
            let elapsed: u64 = if arrival > t {
                (arrival - t) as u64
            } else {
                0
            };
            BenchmarkStats {
                total_trans_time: sat_add(st.total_trans_time, elapsed),
                sensor_missed_deadlines: if elapsed > TRANSIT_DEADLINE_US {
                    sat_add(st.sensor_missed_deadlines, 1)
                } else {
                    st.sensor_missed_deadlines
                },
                ..st
            }
        },
        None => st,
    }
}

/// The command that passes reading `data` through unchanged, issued at `now`.
pub open spec fn pass_through(data: SensorData, now: u64) -> Command {
    Command {
        sensor_type: data.sensor_type,
        magnitude: data.value as i128,
        issued_at: now,
        reading_id: data.id,
        generated_at: data.timestamp,
        pid_derived: false,
    }
}

/// The command carrying control effort `effort` for reading `data`.
pub open spec fn controlled(data: SensorData, effort: int, now: u64) -> Command {
    Command {
        sensor_type: data.sensor_type,
        magnitude: effort as i128,
        issued_at: now,
        reading_id: data.id,
        generated_at: data.timestamp,
        pid_derived: true,
    }
}

/// The fan-in point of all sensors: one controller per quantity, the
/// fail-safe mode machine and the quantities that have an actuator.
pub struct ActuatorCommander {
    pub force_pid: PidController,
    pub position_pid: PidController,
    pub temperature_pid: PidController,
    /// Quantities with a registered actuator.
    pub routes: Vec<SensorType>,
    pub policy: EmergencyPolicy,
    pub system_mode: SystemMode,
    pub consecutive_anomalies: u32,
    pub benchmark_stats: BenchmarkStats,
}

impl ActuatorCommander {
    pub open spec fn wf(&self) -> bool {
        &&& self.force_pid.wf()
        &&& self.position_pid.wf()
        &&& self.temperature_pid.wf()
    }

    /// The controller of quantity `t`.
    pub open spec fn pid_for(&self, t: SensorType) -> PidController {
        match t {
            SensorType::Force => self.force_pid,
            SensorType::Position => self.position_pid,
            SensorType::Temperature => self.temperature_pid,
        }
    }

    /// `cmd` as dispatched, when its quantity has an actuator, or unrouted.
    pub open spec fn routed(&self, cmd: Command) -> CommandOutcome {
        if self.routes@.contains(cmd.sensor_type) {
            CommandOutcome::Dispatched(cmd)
        } else {
            CommandOutcome::Unrouted(cmd)
        }
    }

    /// The outcome for an anomalous reading once the mode is `m`.
    pub open spec fn anomaly_outcome(&self, m: SystemMode, data: SensorData, now: u64) -> CommandOutcome {
        if m != SystemMode::EmergencyStop {
            CommandOutcome::Withheld
        } else {
            match self.policy {
                EmergencyPolicy::PassThrough => self.routed(pass_through(data, now)),
                EmergencyPolicy::Halt => CommandOutcome::EmergencyHalt,
            }
        }
    }

    /// A commander in `Normal` mode with fresh controllers of the default
    /// gains, routing to the quantities in `routes`.
    pub fn new(routes: Vec<SensorType>, policy: EmergencyPolicy) -> (r: Self)
        ensures
            r.wf(),
            forall|t: SensorType|
                #[trigger] r.pid_for(t) == (PidController {
                    kp: default_gains(t).0,
                    ki: default_gains(t).1,
                    kd: default_gains(t).2,
                    integral: 0,
                    prev_error: 0,
                }),
            r.routes@ == routes@,
            r.policy == policy,
            r.system_mode == SystemMode::Normal,
            r.consecutive_anomalies == 0,
            r.benchmark_stats == crate::stats::zero_stats(),
    {
        ActuatorCommander {
            force_pid: PidController::new(1500, 100, 50),
            position_pid: PidController::new(800, 200, 100),
            temperature_pid: PidController::new(500, 50, 10),
            routes,
            policy,
            system_mode: SystemMode::Normal,
            consecutive_anomalies: 0,
            benchmark_stats: BenchmarkStats::new(),
        }
    }

    /// Whether quantity `t` has a registered actuator.
    pub fn has_route(&self, t: SensorType) -> (r: bool)
        ensures
            r == self.routes@.contains(t),
    {
        let mut i: usize = 0;
        while i < self.routes.len()
            invariant
                i <= self.routes@.len(),
                forall|j: int| 0 <= j < i ==> self.routes@[j] != t,
            decreases self.routes@.len() - i,
        {
            if self.routes[i] == t {
                return true;
            }
            i = i + 1;
        }
        false
    }

    /// `cmd` as dispatched or unrouted, as `routed` states it.
    pub fn route(&self, cmd: Command) -> (r: CommandOutcome)
        ensures
            r == self.routed(cmd),
    {
        if self.has_route(cmd.sensor_type) {
            CommandOutcome::Dispatched(cmd)
        } else {
            CommandOutcome::Unrouted(cmd)
        }
    }

    /// Runs the fail-safe escalation for reading `data` handled at `now`.
    ///
    /// The mode and counter move as `next_state` states it. An anomalous
    /// reading gets its outcome here (`Some`), bypassing the control law; a
    /// normal one gets `None` and goes on to control.
    pub fn fail_safe(&mut self, data: &SensorData, now: u64) -> (r: Option<CommandOutcome>)
        ensures
            (final(self).system_mode, final(self).consecutive_anomalies) == next_state(
                old(self).system_mode,
                old(self).consecutive_anomalies,
                data.anomaly,
            ),
            *final(self) == (ActuatorCommander {
                system_mode: final(self).system_mode,
                consecutive_anomalies: final(self).consecutive_anomalies,
                ..*old(self)
            }),
            r == if data.anomaly {
                Some(old(self).anomaly_outcome(final(self).system_mode, *data, now))
            } else {
                None
            },
    {
        let (m, c) = next_mode_state(self.system_mode, self.consecutive_anomalies, data.anomaly);
        self.system_mode = m;
        self.consecutive_anomalies = c;
        if !data.anomaly {
            return None;
        }
        if m != SystemMode::EmergencyStop {
            return Some(CommandOutcome::Withheld);
        }
        match self.policy {
            EmergencyPolicy::PassThrough => {
                let cmd = Command {
                    sensor_type: data.sensor_type,
                    magnitude: data.value as i128,
                    issued_at: now,
                    reading_id: data.id,
                    generated_at: data.timestamp,
                    pid_derived: false,
                };
                Some(self.route(cmd))
            },
            EmergencyPolicy::Halt => Some(CommandOutcome::EmergencyHalt),
        }
    }

    /// Accounts for the transit of a reading processed at `processed` that
    /// arrives at `arrival`, as `after_transit` states it.
    pub fn record_transit(&mut self, processed: Option<u64>, arrival: u64)
        ensures
            *final(self) == (ActuatorCommander {
                benchmark_stats: after_transit(old(self).benchmark_stats, processed, arrival),
                ..*old(self)
            }),
    {
        if let Some(t) = processed {
            let elapsed: u64 = if arrival > t {
                arrival - t
            } else {
                0
            };
            self.benchmark_stats.total_trans_time = self.benchmark_stats.total_trans_time.saturating_add(
                elapsed,
            );
            if elapsed > TRANSIT_DEADLINE_US {
                self.benchmark_stats.sensor_missed_deadlines =
                self.benchmark_stats.sensor_missed_deadlines.saturating_add(1);
            }
        }
    }

    /// Evaluates the controller of the reading's quantity towards its
    /// setpoint, de-rated in `Degraded` mode, and routes the resulting command.
    fn control(&mut self, data: &SensorData, now: u64) -> (r: CommandOutcome)
        requires
            old(self).wf(),
            -VALUE_LIMIT <= data.value <= VALUE_LIMIT,
        ensures
            final(self).wf(),
            ({
                let t = data.sensor_type;
                let e = setpoint_of(t) - data.value;
                let p = old(self).pid_for(t);
                &&& final(self).pid_for(t) == p.stepped(e, CONTROL_PERIOD_US as int)
                &&& forall|u: SensorType|
                    u != t ==> #[trigger] final(self).pid_for(u) == old(self).pid_for(u)
                &&& r == old(self).routed(
                    controlled(
                        *data,
                        p.output(e, CONTROL_PERIOD_US as int, scale_of(old(self).system_mode)),
                        now,
                    ),
                )
            }),
            final(self).routes == old(self).routes,
            final(self).policy == old(self).policy,
            final(self).system_mode == old(self).system_mode,
            final(self).consecutive_anomalies == old(self).consecutive_anomalies,
            final(self).benchmark_stats == old(self).benchmark_stats,
    {
        let target = setpoint(data.sensor_type);
        let scale: u64 = if self.system_mode == SystemMode::Degraded {
            SCALE_DEGRADED
        } else {
            SCALE_FULL
        };
        let effort = match data.sensor_type {
            SensorType::Force => self.force_pid.compute(target, data.value, CONTROL_PERIOD_US, scale),
            SensorType::Position => self.position_pid.compute(
                target,
                data.value,
                CONTROL_PERIOD_US,
                scale,
            ),
            SensorType::Temperature => self.temperature_pid.compute(
                target,
                data.value,
                CONTROL_PERIOD_US,
                scale,
            ),
        };
        let cmd = Command {
            sensor_type: data.sensor_type,
            magnitude: effort,
            issued_at: now,
            reading_id: data.id,
            generated_at: data.timestamp,
            pid_derived: true,
        };
        self.route(cmd)
    }

    /// Handles reading `data` arriving at `arrival`: accounts for its
    /// transit, runs the fail-safe escalation, then either settles an
    /// anomalous reading without the control law or controls a normal one.
    pub fn handle_sensor_data(&mut self, data: SensorData, arrival: u64) -> (r: CommandOutcome)
        requires
            old(self).wf(),
            -VALUE_LIMIT <= data.value <= VALUE_LIMIT,
        ensures
            final(self).wf(),
            final(self).benchmark_stats == after_transit(
                old(self).benchmark_stats,
                data.processed_timestamp,
                arrival,
            ),
            (final(self).system_mode, final(self).consecutive_anomalies) == next_state(
                old(self).system_mode,
                old(self).consecutive_anomalies,
                data.anomaly,
            ),
            final(self).routes == old(self).routes,
            final(self).policy == old(self).policy,
            data.anomaly ==> forall|u: SensorType|
                #[trigger] final(self).pid_for(u) == old(self).pid_for(u),
            data.anomaly ==> r == old(self).anomaly_outcome(final(self).system_mode, data, arrival),
            !data.anomaly ==> ({
                let t = data.sensor_type;
                let e = setpoint_of(t) - data.value;
                let p = old(self).pid_for(t);
                &&& final(self).pid_for(t) == p.stepped(e, CONTROL_PERIOD_US as int)
                &&& forall|u: SensorType|
                    u != t ==> #[trigger] final(self).pid_for(u) == old(self).pid_for(u)
                &&& r == old(self).routed(
                    controlled(
                        data,
                        p.output(e, CONTROL_PERIOD_US as int, scale_of(final(self).system_mode)),
                        arrival,
                    ),
                )
            }),
    {
        self.record_transit(data.processed_timestamp, arrival);
        match self.fail_safe(&data, arrival) {
            Some(outcome) => outcome,
            None => self.control(&data, arrival),
        }
    }

    /// Adds `elapsed_us` of handling time.
    pub fn record_handling_time(&mut self, elapsed_us: u64)
        ensures
            *final(self) == (ActuatorCommander {
                benchmark_stats: BenchmarkStats {
                    total_actuator_time: sat_add(
                        old(self).benchmark_stats.total_actuator_time,
                        elapsed_us,
                    ),
                    ..old(self).benchmark_stats
                },
                ..*old(self)
            }),
    {
        self.benchmark_stats.total_actuator_time = self.benchmark_stats.total_actuator_time.saturating_add(
            elapsed_us,
        );
    }
}

} // verus!
