use std::collections::VecDeque;

use vstd::prelude::*;

use crate::message::{is_trivial_alert, Feedback, SensorData};
use crate::pid::{clamp, trunc_div};
use crate::quantity::{classify, is_anomalous, SensorType, VALUE_LIMIT};
use crate::rng::draw_between;
use crate::stats::{max_u64, sat_add, BenchmarkStats};

verus! {

/// Number of recent normal readings the moving average spans.
pub const HISTORY_CAPACITY: usize = 5;

/// Soft deadline of local processing, in microseconds.
pub const PROCESSING_DEADLINE_US: u64 = 200;

/// Budget for feedback to travel from actuator to sensor, in microseconds.
pub const FEEDBACK_DEADLINE_US: u64 = 500;

/// Sampling period, in microseconds.
pub const SAMPLE_PERIOD_US: u64 = 5000;

/// Range of the calibration bias; it saturates there.
pub const BIAS_LIMIT: i64 = 500_000_000_000;

/// Largest magnitude of a raw sample.
pub const SAMPLE_LIMIT: i64 = 500_000_000_000;

/// Sum of a sequence of values.
pub open spec fn sum_of(s: Seq<i64>) -> int
    decreases s.len(),
{
    if s.len() == 0 {
        0
    } else {
        sum_of(s.drop_last()) + s.last()
    }
}

/// Arithmetic mean of a non-empty sequence, rounded towards zero.
pub open spec fn mean_of(s: Seq<i64>) -> int {
    trunc_div(sum_of(s), s.len() as int)
}

/// The history after a normal reading `v`: `v` appended, the oldest evicted
/// beyond `HISTORY_CAPACITY`.
pub open spec fn pushed_window(h: Seq<i64>, v: i64) -> Seq<i64> {
    let s = h.push(v);
    if s.len() > HISTORY_CAPACITY {
        s.subrange(s.len() - HISTORY_CAPACITY, s.len() as int)
    } else {
        s
    }
}

/// The last `HISTORY_CAPACITY` values of `s` (all of them when fewer).
pub open spec fn last_window(s: Seq<i64>) -> Seq<i64> {
    if s.len() > HISTORY_CAPACITY {
        s.subrange(s.len() - HISTORY_CAPACITY, s.len() as int)
    } else {
        s
    }
}

/// The history and the reading after processing `data` with history `h`:
/// an anomalous reading is flagged and leaves the history alone; a normal
/// one joins the history and takes the mean of it as its value.
pub open spec fn processed(h: Seq<i64>, data: SensorData) -> (Seq<i64>, SensorData) {
    if is_anomalous(data.sensor_type, data.value as int) {
        (h, SensorData { anomaly: true, ..data })
    } else {
        let w = pushed_window(h, data.value);
        (w, SensorData { value: mean_of(w) as i64, anomaly: false, ..data })
    }
}

/// The raw values of the normal readings of `rs`, in order.
pub open spec fn normal_values(rs: Seq<SensorData>) -> Seq<i64>
    decreases rs.len(),
{
    if rs.len() == 0 {
        Seq::empty()
    } else {
        let prev = normal_values(rs.drop_last());
        let r = rs.last();
        if is_anomalous(r.sensor_type, r.value as int) {
            prev
        } else {
            prev.push(r.value)
        }
    }
}

/// The history after processing the readings `rs` in order, from `h`.
pub open spec fn history_after(h: Seq<i64>, rs: Seq<SensorData>) -> Seq<i64>
    decreases rs.len(),
{
    if rs.len() == 0 {
        h
    } else {
        processed(history_after(h, rs.drop_last()), rs.last()).0
    }
}

/// Every processed reading is flagged exactly by the anomaly table (Force
/// outside [5, 60], |Position| above 0.5, Temperature above 120), and an
/// anomalous one keeps its value and leaves the history as it was.
pub proof fn lemma_flag_matches_table(h: Seq<i64>, data: SensorData)
    ensures
        processed(h, data).1.anomaly == match data.sensor_type {
            SensorType::Force => data.value < 5_000_000 || data.value > 60_000_000,
            SensorType::Position => data.value > 500_000 || data.value < -500_000,
            SensorType::Temperature => data.value > 120_000_000,
        },
        processed(h, data).1.anomaly ==> processed(h, data).1.value == data.value
            && processed(h, data).0 == h,
{
}

proof fn lemma_window_of_window(s: Seq<i64>, v: i64)
    ensures
        pushed_window(last_window(s), v) == last_window(s.push(v)),
{
    if s.len() > HISTORY_CAPACITY {
        assert(pushed_window(last_window(s), v) =~= last_window(s.push(v)));
    }
}

/// From an empty history, after any readings `rs` the history holds the
/// last `HISTORY_CAPACITY` raw values of the normal ones (anomalous readings
/// never enter it); so a normal reading closing `rs` comes out with the mean
/// of those values, not of all of them.
pub proof fn lemma_moving_average_window(rs: Seq<SensorData>)
    ensures
        history_after(Seq::empty(), rs) == last_window(normal_values(rs)),
        rs.len() > 0 && !is_anomalous(rs.last().sensor_type, rs.last().value as int) ==> processed(
            history_after(Seq::empty(), rs.drop_last()),
            rs.last(),
        ).1.value == mean_of(last_window(normal_values(rs))) as i64,
    decreases rs.len(),
{
    if rs.len() > 0 {
        lemma_moving_average_window(rs.drop_last());
        let r = rs.last();
        if !is_anomalous(r.sensor_type, r.value as int) {
            lemma_window_of_window(normal_values(rs.drop_last()), r.value);
        }
    }
}

/// The half-open range `[lo, hi)` raw samples of each quantity are drawn
/// from: Force [10, 55), Position [-0.1, 0.2), Temperature [20, 130).
pub open spec fn sample_range(t: SensorType) -> (int, int) {
    match t {
        SensorType::Force => (10_000_000, 55_000_000),
        SensorType::Position => (-100_000, 200_000),
        SensorType::Temperature => (20_000_000, 130_000_000),
    }
}

/// What a sensor does with a processed reading before sending it.
#[derive(Debug, Clone, Copy, PartialEq, Eq, Structural)]
pub enum TransmitAction {
    /// Send at once.
    Send,
    /// Wait a short while, standing in for network latency, then send.
    Delay,
    /// Lose the reading, standing in for a dropped packet.
    Drop,
}

/// Probabilities, in percent, of the simulated transport faults.
#[derive(Debug, Clone, Copy, PartialEq, Eq, Structural)]
pub struct TransmitFaults {
    pub drop_percent: u64,
    pub delay_percent: u64,
}

impl TransmitFaults {
    pub open spec fn wf(&self) -> bool {
        self.drop_percent + self.delay_percent <= 100
    }

    /// Five percent drops and five percent delays.
    pub fn standard() -> (r: Self)
        ensures
            r.wf(),
            r.drop_percent == 5,
            r.delay_percent == 5,
    {
        TransmitFaults { drop_percent: 5, delay_percent: 5 }
    }

    /// The action for a roll in `[0, 100)`: the lowest `drop_percent` rolls
    /// drop, the highest `delay_percent` rolls delay, the rest send.
    pub open spec fn action_for(&self, roll: int) -> TransmitAction {
        if roll < self.drop_percent {
            TransmitAction::Drop
        } else if roll >= 100 - self.delay_percent {
            TransmitAction::Delay
        } else {
            TransmitAction::Send
        }
    }

    /// The action for `roll`, as `action_for` states it.
    pub fn transmit_action(&self, roll: i64) -> (r: TransmitAction)
        requires
            self.wf(),
            0 <= roll < 100,
        ensures
            r == self.action_for(roll as int),
    {
        if roll < self.drop_percent as i64 {
            TransmitAction::Drop
        } else if roll >= 100 - self.delay_percent as i64 {
            TransmitAction::Delay
        } else {
            TransmitAction::Send
        }
    }
}

/// What a sensor made of one feedback message.
#[derive(Debug, Clone, Copy, PartialEq, Eq, Structural)]
pub struct FeedbackIntake {
    /// It arrived after the feedback budget.
    pub late: bool,
    /// Its offset was folded into the calibration bias.
    pub recalibrated: bool,
    /// It carries alert text to log.
    pub alert: bool,
}

/// One sensing channel: sequence numbers, a moving-average history,
/// a calibration bias and timing accumulators.
pub struct Sensor {
    pub id_counter: u64,
    pub history_buffer: VecDeque<i64>,
    pub sensor_type: SensorType,
    pub calibration_offset: i64,
    /// The ideal time of the next sampling tick, in microseconds.
    pub next_deadline: u64,
    pub faults: TransmitFaults,
    pub benchmark_stats: BenchmarkStats,
}

impl Sensor {
    pub open spec fn wf(&self) -> bool {
        &&& self.history_buffer@.len() <= HISTORY_CAPACITY
        &&& forall|i: int|
            0 <= i < self.history_buffer@.len() ==> -VALUE_LIMIT <= #[trigger] self.history_buffer@[i]
                <= VALUE_LIMIT
        &&& -BIAS_LIMIT <= self.calibration_offset <= BIAS_LIMIT
        &&& self.faults.wf()
    }

    /// A sensor of quantity `sensor_type` that has produced nothing yet.
    pub fn new(sensor_type: SensorType) -> (r: Self)
        ensures
            r.wf(),
            r.id_counter == 0,
            r.history_buffer@ == Seq::<i64>::empty(),
            r.sensor_type == sensor_type,
            r.calibration_offset == 0,
            r.next_deadline == 0,
            r.faults == (TransmitFaults { drop_percent: 5, delay_percent: 5 }),
            r.benchmark_stats == crate::stats::zero_stats(),
    {
        Sensor {
            id_counter: 0,
            history_buffer: VecDeque::new(),
            sensor_type,
            calibration_offset: 0,
            next_deadline: 0,
            faults: TransmitFaults::standard(),
            benchmark_stats: BenchmarkStats::new(),
        }
    }

    /// The next reading from raw sample `sample` taken at `now`: the next
    /// sequence number, the sample plus the calibration bias, not yet
    /// classified or processed.
    pub fn reading_from_sample(&mut self, sample: i64, now: u64) -> (r: SensorData)
        requires
            old(self).wf(),
            -SAMPLE_LIMIT <= sample <= SAMPLE_LIMIT,
            old(self).id_counter < u64::MAX,
        ensures
            final(self).wf(),
            *final(self) == (Sensor { id_counter: (old(self).id_counter + 1) as u64, ..*old(self) }),
            r == (SensorData {
                id: final(self).id_counter,
                sensor_type: old(self).sensor_type,
                value: (sample + old(self).calibration_offset) as i64,
                anomaly: false,
                timestamp: now,
                processed_timestamp: None,
            }),
    {
        self.id_counter = self.id_counter + 1;
        SensorData {
            id: self.id_counter,
            sensor_type: self.sensor_type,
            value: sample + self.calibration_offset,
            anomaly: false,
            timestamp: now,
            processed_timestamp: None,
        }
    }

    /// The next reading, generated at `now` from a raw sample drawn
    /// uniformly from the quantity's `sample_range`.
    pub fn generate_data(&mut self, now: u64) -> (r: SensorData)
        requires
            old(self).wf(),
            old(self).id_counter < u64::MAX,
        ensures
            final(self).wf(),
            *final(self) == (Sensor { id_counter: (old(self).id_counter + 1) as u64, ..*old(self) }),
            r.id == final(self).id_counter,
            r.sensor_type == old(self).sensor_type,
            sample_range(old(self).sensor_type).0 <= r.value - old(self).calibration_offset,
            r.value - old(self).calibration_offset < sample_range(old(self).sensor_type).1,
            !r.anomaly,
            r.timestamp == now,
            r.processed_timestamp == None::<u64>,
    {
        let sample = match self.sensor_type {
            SensorType::Force => draw_between(10_000_000, 55_000_000),
            SensorType::Position => draw_between(-100_000, 200_000),
            SensorType::Temperature => draw_between(20_000_000, 130_000_000),
        };
        self.reading_from_sample(sample, now)
    }

    fn history_sum(&self) -> (r: i64)
        requires
            self.wf(),
        ensures
            r == sum_of(self.history_buffer@),
            -(HISTORY_CAPACITY as int) * VALUE_LIMIT <= r <= (HISTORY_CAPACITY as int) * VALUE_LIMIT,
    {
        let n = self.history_buffer.len();
        let mut total: i64 = 0;
        let mut i: usize = 0;
        while i < n
            invariant
                self.wf(),
                n == self.history_buffer@.len(),
                i <= n,
                total == sum_of(self.history_buffer@.subrange(0, i as int)),
                -(i as int) * VALUE_LIMIT <= total <= (i as int) * VALUE_LIMIT,
            decreases n - i,
        {
            let v = self.history_buffer[i];
            proof {
                let h = self.history_buffer@;
                assert(h.subrange(0, i + 1).drop_last() =~= h.subrange(0, i as int));
            }
            total = total + v;
            i = i + 1;
        }
        proof {
            assert(self.history_buffer@.subrange(0, n as int) =~= self.history_buffer@);
        }
        total
    }

    /// Classifies `data` by the anomaly table. An anomalous reading comes
    /// back flagged and untouched; a normal one joins the history and its
    /// value becomes the mean of the history.
    pub fn process_data(&mut self, data: SensorData) -> (r: SensorData)
        requires
            old(self).wf(),
            -VALUE_LIMIT <= data.value <= VALUE_LIMIT,
        ensures
            final(self).wf(),
            final(self).id_counter == old(self).id_counter,
            final(self).sensor_type == old(self).sensor_type,
            final(self).calibration_offset == old(self).calibration_offset,
            final(self).next_deadline == old(self).next_deadline,
            final(self).faults == old(self).faults,
            final(self).benchmark_stats == old(self).benchmark_stats,
            (final(self).history_buffer@, r) == processed(old(self).history_buffer@, data),
            r.anomaly == is_anomalous(data.sensor_type, data.value as int),
            r.anomaly ==> r == (SensorData { anomaly: true, ..data }),
            r.anomaly ==> final(self).history_buffer@ == old(self).history_buffer@,
            !r.anomaly ==> final(self).history_buffer@ == pushed_window(
                old(self).history_buffer@,
                data.value,
            ),
            !r.anomaly ==> r == (SensorData {
                value: mean_of(final(self).history_buffer@) as i64,
                anomaly: false,
                ..data
            }),
    {
        if classify(data.sensor_type, data.value) {
            return SensorData { anomaly: true, ..data };
        }
        let ghost h0 = self.history_buffer@;
        if self.history_buffer.len() >= HISTORY_CAPACITY {
            self.history_buffer.pop_front();
        }
        self.history_buffer.push_back(data.value);
        proof {
            assert(self.history_buffer@ =~= pushed_window(h0, data.value));
        }
        let total = self.history_sum();
        let n = self.history_buffer.len() as i64;
        let avg: i64 = if total >= 0 {
            total / n
        } else {
            -((-total) / n)
        };
        SensorData { value: avg, anomaly: false, ..data }
    }

    /// Closes local processing of `data` that took `elapsed_us` and ended at
    /// `now`. A normal reading that overran `PROCESSING_DEADLINE_US` is
    /// dropped and the miss counted; any other reading is stamped with `now`,
    /// kept, and its processing time added.
    pub fn finish_processing(&mut self, data: SensorData, elapsed_us: u64, now: u64) -> (r: Option<
        SensorData,
    >)
        requires
            old(self).wf(),
        ensures
            final(self).wf(),
            r is None <==> (!data.anomaly && elapsed_us > PROCESSING_DEADLINE_US),
            r is Some ==> r == Some(SensorData { processed_timestamp: Some(now), ..data }),
            *final(self) == (Sensor {
                benchmark_stats: if r is None {
                    BenchmarkStats {
                        sensor_missed_deadlines: sat_add(
                            old(self).benchmark_stats.sensor_missed_deadlines,
                            1,
                        ),
                        ..old(self).benchmark_stats
                    }
                } else {
                    BenchmarkStats {
                        total_proc_time: sat_add(old(self).benchmark_stats.total_proc_time, elapsed_us),
                        ..old(self).benchmark_stats
                    }
                },
                ..*old(self)
            }),
    {
        if !data.anomaly && elapsed_us > PROCESSING_DEADLINE_US {
            self.benchmark_stats.sensor_missed_deadlines =
            self.benchmark_stats.sensor_missed_deadlines.saturating_add(1);
            None
        } else {
            self.benchmark_stats.total_proc_time = self.benchmark_stats.total_proc_time.saturating_add(
                elapsed_us,
            );
            Some(SensorData { processed_timestamp: Some(now), ..data })
        }
    }

    /// Accounts for a sampling tick that woke at `now`: lateness against the
    /// ideal deadline is added to the jitter total and peak, the deadline
    /// moves one period on, and the tick is counted.
    pub fn record_tick(&mut self, now: u64)
        requires
            old(self).wf(),
        ensures
            final(self).wf(),
            ({
                let st = old(self).benchmark_stats;
                let late: u64 = if now > old(self).next_deadline {
                    (now - old(self).next_deadline) as u64
                } else {
                    0
                };
                &&& final(self).next_deadline == sat_add(old(self).next_deadline, SAMPLE_PERIOD_US)
                &&& final(self).benchmark_stats == (BenchmarkStats {
                    total_jitter: sat_add(st.total_jitter, late),
                    max_jitter: max_u64(st.max_jitter, late),
                    sensor_count: sat_add(st.sensor_count, 1),
                    ..st
                })
            }),
            *final(self) == (Sensor {
                next_deadline: final(self).next_deadline,
                benchmark_stats: final(self).benchmark_stats,
                ..*old(self)
            }),
    {
        let late: u64 = if now > self.next_deadline {
            now - self.next_deadline
        } else {
            0
        };
        self.benchmark_stats.total_jitter = self.benchmark_stats.total_jitter.saturating_add(late);
        if late > self.benchmark_stats.max_jitter {
            self.benchmark_stats.max_jitter = late;
        }
        self.benchmark_stats.sensor_count = self.benchmark_stats.sensor_count.saturating_add(1);
        self.next_deadline = self.next_deadline.saturating_add(SAMPLE_PERIOD_US);
    }

    /// Adds `elapsed_us` of generation time.
    pub fn record_generation(&mut self, elapsed_us: u64)
        requires
            old(self).wf(),
        ensures
            final(self).wf(),
            *final(self) == (Sensor {
                benchmark_stats: BenchmarkStats {
                    total_gen_time: sat_add(old(self).benchmark_stats.total_gen_time, elapsed_us),
                    ..old(self).benchmark_stats
                },
                ..*old(self)
            }),
    {
        self.benchmark_stats.total_gen_time = self.benchmark_stats.total_gen_time.saturating_add(
            elapsed_us,
        );
    }

    /// The simulated transport fault for the next send, from a roll drawn
    /// uniformly in `[0, 100)`.
    pub fn transmit_fault(&self) -> (r: TransmitAction)
        requires
            self.wf(),
        ensures
            exists|roll: int| 0 <= roll < 100 && r == self.faults.action_for(roll),
    {
        let roll = draw_between(0, 100);
        self.faults.transmit_action(roll)
    }

    /// Takes in feedback `fb` received at `now`. Feedback older than
    /// `FEEDBACK_DEADLINE_US` is late and counted as a miss; a non-zero
    /// offset is added to the calibration bias (held to `BIAS_LIMIT`);
    /// alert text other than `"no"` or empty is reported for logging.
    pub fn apply_feedback(&mut self, fb: &Feedback, now: u64) -> (r: FeedbackIntake)
        requires
            old(self).wf(),
        ensures
            final(self).wf(),
            r.late == (now > fb.timestamp && now - fb.timestamp > FEEDBACK_DEADLINE_US),
            r.recalibrated == (fb.recalibrate_offset != 0),
            r.alert == !is_trivial_alert(fb.error_msg@),
            final(self).calibration_offset == clamp(
                old(self).calibration_offset + fb.recalibrate_offset,
                BIAS_LIMIT as int,
            ),
            final(self).benchmark_stats.actuator_missed_deadlines == if r.late {
                sat_add(old(self).benchmark_stats.actuator_missed_deadlines, 1)
            } else {
                old(self).benchmark_stats.actuator_missed_deadlines
            },
            final(self).benchmark_stats == (BenchmarkStats {
                actuator_missed_deadlines: final(self).benchmark_stats.actuator_missed_deadlines,
                ..old(self).benchmark_stats
            }),
            *final(self) == (Sensor {
                calibration_offset: final(self).calibration_offset,
                benchmark_stats: final(self).benchmark_stats,
                ..*old(self)
            }),
    {
        let late = now > fb.timestamp && now - fb.timestamp > FEEDBACK_DEADLINE_US;
        if late {
            self.benchmark_stats.actuator_missed_deadlines =
            self.benchmark_stats.actuator_missed_deadlines.saturating_add(1);
        }
        let recalibrated = fb.recalibrate_offset != 0;
        if recalibrated {
            let sum: i128 = self.calibration_offset as i128 + fb.recalibrate_offset as i128;
            let bias: i128 = if sum > BIAS_LIMIT as i128 {
                BIAS_LIMIT as i128
            } else if sum < -(BIAS_LIMIT as i128) {
                -(BIAS_LIMIT as i128)
            } else {
                sum
            };
            self.calibration_offset = bias as i64;
        }
        let text = fb.error_msg.as_str();
        let none = "no".to_owned();
        proof {
            reveal_strlit("no");
            assert(none@ =~= seq!['n', 'o']);
        }
        let alert = !(text.is_empty() || fb.error_msg == none);
        FeedbackIntake { late, recalibrated, alert }
    }
}

} // verus!
