use vstd::prelude::*;

use crate::message::Feedback;
use crate::quantity::SensorType;
use crate::rng::draw_between;
use crate::stats::{max_u64, sat_add, BenchmarkStats};

verus! {

/// Deadline of one actuation, in microseconds.
pub const OPERATION_DEADLINE_US: u64 = 2000;

/// Nominal interval between commands, in microseconds.
pub const EXPECTED_INTERVAL_US: u64 = 5000;

/// Chance, in percent, that feedback is a plain acknowledgment.
pub const ACK_PERCENT: i64 = 95;

/// Recalibration offsets are drawn from `[-OFFSET_RANGE, OFFSET_RANGE)`
/// (half a unit).
pub const OFFSET_RANGE: i64 = 500_000;

/// Which feedback an actuator returns to its sensor.
#[derive(Debug, Clone, Copy, PartialEq, Eq, Structural)]
pub enum FeedbackPolicy {
    /// Only feedback that requests a calibration change.
    RecalibrationOnly,
    /// Every feedback.
    All,
}

/// The distance between an arrival interval and the nominal one.
pub open spec fn jitter_of(interval: u64) -> u64 {
    if interval > EXPECTED_INTERVAL_US {
        (interval - EXPECTED_INTERVAL_US) as u64
    } else {
        (EXPECTED_INTERVAL_US - interval) as u64
    }
}

/// The feedback fields for a roll `roll` in `[0, 100)` and offset `offset`:
/// below `ACK_PERCENT` an acknowledgment with alert text `"no"` and no
/// offset, otherwise a recalibration request with alert text
/// `"Random Drift Check"` and `offset`.
pub open spec fn feedback_matches(fb: Feedback, roll: int, offset: int, now: u64) -> bool {
    if roll < ACK_PERCENT {
        &&& fb.is_ack
        &&& fb.error_msg@ == seq!['n', 'o']
        &&& fb.recalibrate_offset == 0
        &&& fb.timestamp == now
    } else {
        &&& !fb.is_ack
        &&& fb.error_msg@ == "Random Drift Check"@
        &&& fb.recalibrate_offset == offset
        &&& fb.timestamp == now
    }
}

/// One actuation channel.
pub struct Actuator {
    pub name: String,
    pub sensor_type: SensorType,
    /// Deadline of one actuation, in microseconds.
    pub operation_deadline: u64,
    pub benchmark_stats: BenchmarkStats,
    /// When the previous command arrived, in microseconds.
    pub last_arrival_time: Option<u64>,
}

impl Actuator {
    /// An actuator called `name` for quantity `sensor_type` that has seen
    /// no command yet.
    pub fn new(name: String, sensor_type: SensorType) -> (r: Self)
        ensures
            r.name@ == name@,
            r.sensor_type == sensor_type,
            r.operation_deadline == OPERATION_DEADLINE_US,
            r.benchmark_stats == crate::stats::zero_stats(),
            r.last_arrival_time == None::<u64>,
    {
        let deadline: u64 = match sensor_type {
            SensorType::Force => OPERATION_DEADLINE_US,
            SensorType::Position => OPERATION_DEADLINE_US,
            SensorType::Temperature => OPERATION_DEADLINE_US,
        };
        Actuator {
            name,
            sensor_type,
            operation_deadline: deadline,
            benchmark_stats: BenchmarkStats::new(),
            last_arrival_time: None,
        }
    }

    /// Accounts for a command arriving at `now`: after a previous arrival,
    /// the distance of the interval from `EXPECTED_INTERVAL_US` is added to
    /// the jitter total and peak (a clock reading before the previous one
    /// counts as a zero interval). `now` becomes the last arrival.
    pub fn update_jitter(&mut self, now: u64)
        ensures
            final(self).last_arrival_time == Some(now),
            final(self).name == old(self).name,
            final(self).sensor_type == old(self).sensor_type,
            final(self).operation_deadline == old(self).operation_deadline,
            final(self).benchmark_stats == match old(self).last_arrival_time {
                None => old(self).benchmark_stats,
                Some(last) => {
                    let interval: u64 = if now > last {
                        (now - last) as u64
                    } else {
                        0
                    };
                    let j = jitter_of(interval);
                    BenchmarkStats {
                        total_at_jitter: sat_add(old(self).benchmark_stats.total_at_jitter, j),
                        max_at_jitter: max_u64(old(self).benchmark_stats.max_at_jitter, j),
                        ..old(self).benchmark_stats
                    }
                },
            },
    {
        if let Some(last) = self.last_arrival_time {
            let interval: u64 = if now > last {
                now - last
            } else {
                0
            };
            let jitter: u64 = if interval > EXPECTED_INTERVAL_US {
                interval - EXPECTED_INTERVAL_US
            } else {
                EXPECTED_INTERVAL_US - interval
            };
            self.benchmark_stats.total_at_jitter = self.benchmark_stats.total_at_jitter.saturating_add(
                jitter,
            );
            if jitter > self.benchmark_stats.max_at_jitter {
                self.benchmark_stats.max_at_jitter = jitter;
            }
        }
        self.last_arrival_time = Some(now);
    }

    /// Checks an actuation that took `elapsed_us` against the operation
    /// deadline; an overrun is counted and reported, never aborted.
    pub fn finish_operation(&mut self, elapsed_us: u64) -> (missed: bool)
        ensures
            missed == (elapsed_us > old(self).operation_deadline),
            final(self).name == old(self).name,
            final(self).sensor_type == old(self).sensor_type,
            final(self).operation_deadline == old(self).operation_deadline,
            final(self).last_arrival_time == old(self).last_arrival_time,
            final(self).benchmark_stats == (BenchmarkStats {
                actuator_missed_deadlines: if missed {
                    sat_add(old(self).benchmark_stats.actuator_missed_deadlines, 1)
                } else {
                    old(self).benchmark_stats.actuator_missed_deadlines
                },
                ..old(self).benchmark_stats
            }),
    {
        let missed = elapsed_us > self.operation_deadline;
        if missed {
            self.benchmark_stats.actuator_missed_deadlines =
            self.benchmark_stats.actuator_missed_deadlines.saturating_add(1);
        }
        missed
    }

    /// The feedback for roll `roll` and offset `offset` produced at `now`,
    /// as `feedback_matches` states it.
    pub fn feedback_from_roll(&self, roll: i64, offset: i64, now: u64) -> (r: Feedback)
        requires
            0 <= roll < 100,
        ensures
            feedback_matches(r, roll as int, offset as int, now),
    {
        if roll < ACK_PERCENT {
            let msg = "no".to_owned();
            proof {
                reveal_strlit("no");
                assert(msg@ =~= seq!['n', 'o']);
            }
            Feedback { is_ack: true, error_msg: msg, recalibrate_offset: 0, timestamp: now }
        } else {
            let msg = "Random Drift Check".to_owned();
            Feedback { is_ack: false, error_msg: msg, recalibrate_offset: offset, timestamp: now }
        }
    }

    /// Feedback produced at `now`: a roll drawn uniformly in `[0, 100)`
    /// and, for a recalibration, an offset drawn uniformly in
    /// `[-OFFSET_RANGE, OFFSET_RANGE)`.
    pub fn generate_feedback(&self, now: u64) -> (r: Feedback)
        ensures
            exists|roll: int, offset: int|
                0 <= roll < 100 && -OFFSET_RANGE <= offset < OFFSET_RANGE && feedback_matches(
                    r,
                    roll,
                    offset,
                    now,
                ),
    {
        let roll = draw_between(0, 100);
        if roll < ACK_PERCENT {
            let r = self.feedback_from_roll(roll, 0, now);
            assert(feedback_matches(r, roll as int, 0, now));
            r
        } else {
            let offset = draw_between(-OFFSET_RANGE, OFFSET_RANGE);
            let r = self.feedback_from_roll(roll, offset, now);
            assert(feedback_matches(r, roll as int, offset as int, now));
            r
        }
    }

    /// Whether feedback `fb` goes back to the sensor under `policy`.
    pub fn should_return(fb: &Feedback, policy: FeedbackPolicy) -> (r: bool)
        ensures
            r == (policy == FeedbackPolicy::All || fb.recalibrate_offset != 0),
    {
        match policy {
            FeedbackPolicy::All => true,
            FeedbackPolicy::RecalibrationOnly => fb.recalibrate_offset != 0,
        }
    }

    /// Commits a cycle that executed for `exec_us` and ended at `now`, for a
    /// reading generated at `generated_at`: execution time and end-to-end
    /// latency are added and the cycle counted.
    pub fn record_cycle(&mut self, exec_us: u64, now: u64, generated_at: u64)
        ensures
            final(self).name == old(self).name,
            final(self).sensor_type == old(self).sensor_type,
            final(self).operation_deadline == old(self).operation_deadline,
            final(self).last_arrival_time == old(self).last_arrival_time,
            final(self).benchmark_stats == (BenchmarkStats {
                total_actuator_time: sat_add(old(self).benchmark_stats.total_actuator_time, exec_us),
                total_latency: sat_add(
                    old(self).benchmark_stats.total_latency,
                    if now > generated_at {
                        (now - generated_at) as u64
                    } else {
                        0
                    },
                ),
                actuator_count: sat_add(old(self).benchmark_stats.actuator_count, 1),
                ..old(self).benchmark_stats
            }),
    {
        let latency: u64 = if now > generated_at {
            now - generated_at
        } else {
            0
        };
        self.benchmark_stats.total_actuator_time = self.benchmark_stats.total_actuator_time.saturating_add(
            exec_us,
        );
        self.benchmark_stats.total_latency = self.benchmark_stats.total_latency.saturating_add(
            latency,
        );
        self.benchmark_stats.actuator_count = self.benchmark_stats.actuator_count.saturating_add(1);
    }
}

} // verus!
