use vstd::prelude::*;

verus! {

/// `x + y` held at `u64::MAX`.
pub open spec fn sat_add(x: u64, y: u64) -> u64 {
    if x + y > u64::MAX {
        u64::MAX
    } else {
        (x + y) as u64
    }
}

/// The larger of `x` and `y`.
pub open spec fn max_u64(x: u64, y: u64) -> u64 {
    if x >= y {
        x
    } else {
        y
    }
}

/// Timing accumulators of one component: counts, summed durations and peak
/// jitters, all durations in microseconds. Sums saturate at `u64::MAX`.
#[derive(Debug, Clone, Copy, PartialEq, Eq, Structural)]
pub struct BenchmarkStats {
    pub sensor_count: u64,
    pub total_gen_time: u64,
    pub total_proc_time: u64,
    pub total_trans_time: u64,
    pub total_jitter: u64,
    pub max_jitter: u64,
    pub sensor_missed_deadlines: u64,
    pub actuator_count: u64,
    pub total_actuator_time: u64,
    pub total_latency: u64,
    pub total_at_jitter: u64,
    pub max_at_jitter: u64,
    pub actuator_missed_deadlines: u64,
}

/// Accumulators that have recorded nothing.
pub open spec fn zero_stats() -> BenchmarkStats {
    BenchmarkStats {
        sensor_count: 0,
        total_gen_time: 0,
        total_proc_time: 0,
        total_trans_time: 0,
        total_jitter: 0,
        max_jitter: 0,
        sensor_missed_deadlines: 0,
        actuator_count: 0,
        total_actuator_time: 0,
        total_latency: 0,
        total_at_jitter: 0,
        max_at_jitter: 0,
        actuator_missed_deadlines: 0,
    }
}

/// The combination of two accumulators: totals and counts add, peaks take
/// the larger.
pub open spec fn merged(a: BenchmarkStats, b: BenchmarkStats) -> BenchmarkStats {
    BenchmarkStats {
        sensor_count: sat_add(a.sensor_count, b.sensor_count),
        total_gen_time: sat_add(a.total_gen_time, b.total_gen_time),
        total_proc_time: sat_add(a.total_proc_time, b.total_proc_time),
        total_trans_time: sat_add(a.total_trans_time, b.total_trans_time),
        total_jitter: sat_add(a.total_jitter, b.total_jitter),
        max_jitter: max_u64(a.max_jitter, b.max_jitter),
        sensor_missed_deadlines: sat_add(a.sensor_missed_deadlines, b.sensor_missed_deadlines),
        actuator_count: sat_add(a.actuator_count, b.actuator_count),
        total_actuator_time: sat_add(a.total_actuator_time, b.total_actuator_time),
        total_latency: sat_add(a.total_latency, b.total_latency),
        total_at_jitter: sat_add(a.total_at_jitter, b.total_at_jitter),
        max_at_jitter: max_u64(a.max_at_jitter, b.max_at_jitter),
        actuator_missed_deadlines: sat_add(a.actuator_missed_deadlines, b.actuator_missed_deadlines),
    }
}

fn max_of(x: u64, y: u64) -> (r: u64)
    ensures
        r == max_u64(x, y),
{
    if x >= y {
        x
    } else {
        y
    }
}

impl BenchmarkStats {
    /// Accumulators that have recorded nothing.
    pub fn new() -> (r: Self)
        ensures
            r == zero_stats(),
    {
        BenchmarkStats {
            sensor_count: 0,
            total_gen_time: 0,
            total_proc_time: 0,
            total_trans_time: 0,
            total_jitter: 0,
            max_jitter: 0,
            sensor_missed_deadlines: 0,
            actuator_count: 0,
            total_actuator_time: 0,
            total_latency: 0,
            total_at_jitter: 0,
            max_at_jitter: 0,
            actuator_missed_deadlines: 0,
        }
    }

    /// The combination of `self` and `other`, as `merged` states it.
    pub fn merge(&self, other: &BenchmarkStats) -> (r: BenchmarkStats)
        ensures
            r == merged(*self, *other),
    {
        BenchmarkStats {
            sensor_count: self.sensor_count.saturating_add(other.sensor_count),
            total_gen_time: self.total_gen_time.saturating_add(other.total_gen_time),
            total_proc_time: self.total_proc_time.saturating_add(other.total_proc_time),
            total_trans_time: self.total_trans_time.saturating_add(other.total_trans_time),
            total_jitter: self.total_jitter.saturating_add(other.total_jitter),
            max_jitter: max_of(self.max_jitter, other.max_jitter),
            sensor_missed_deadlines: self.sensor_missed_deadlines.saturating_add(
                other.sensor_missed_deadlines,
            ),
            actuator_count: self.actuator_count.saturating_add(other.actuator_count),
            total_actuator_time: self.total_actuator_time.saturating_add(other.total_actuator_time),
            total_latency: self.total_latency.saturating_add(other.total_latency),
            total_at_jitter: self.total_at_jitter.saturating_add(other.total_at_jitter),
            max_at_jitter: max_of(self.max_at_jitter, other.max_at_jitter),
            actuator_missed_deadlines: self.actuator_missed_deadlines.saturating_add(
                other.actuator_missed_deadlines,
            ),
        }
    }
}

/// Merging is associative: `merge(merge(a, b), c) == merge(a, merge(b, c))`
/// for every accumulator field, saturating sums and maxima alike.
pub proof fn lemma_merge_associative(a: BenchmarkStats, b: BenchmarkStats, c: BenchmarkStats)
    ensures
        merged(merged(a, b), c) == merged(a, merged(b, c)),
{
}

/// Merging is commutative: `merge(a, b) == merge(b, a)`.
pub proof fn lemma_merge_commutative(a: BenchmarkStats, b: BenchmarkStats)
    ensures
        merged(a, b) == merged(b, a),
{
}

/// Accumulators that have recorded nothing are the unit of merging.
pub proof fn lemma_merge_identity(a: BenchmarkStats)
    ensures
        merged(a, zero_stats()) == a,
{
}

} // verus!

verus! {

/// Throughput and latency of actuation tasks.
#[derive(Debug, Clone, Copy, PartialEq, Eq, Structural)]
pub struct ActuatorStats {
    pub total_tasks: u64,
    pub missed_deadlines: u64,
    /// Summed latency, in microseconds.
    pub total_latency_us: u128,
}

impl ActuatorStats {
    /// Statistics of no task.
    pub fn new() -> (r: Self)
        ensures
            r == (ActuatorStats { total_tasks: 0, missed_deadlines: 0, total_latency_us: 0 }),
    {
        ActuatorStats { total_tasks: 0, missed_deadlines: 0, total_latency_us: 0 }
    }

    /// Records a task of latency `latency_us` that did or did not miss its
    /// deadline; counts saturate.
    pub fn update(&mut self, latency_us: u64, missed: bool)
        ensures
            final(self).total_tasks == sat_add(old(self).total_tasks, 1),
            final(self).missed_deadlines == if missed {
                sat_add(old(self).missed_deadlines, 1)
            } else {
                old(self).missed_deadlines
            },
            final(self).total_latency_us == if old(self).total_latency_us + latency_us > u128::MAX {
                u128::MAX as int
            } else {
                old(self).total_latency_us + latency_us
            },
    {
        self.total_tasks = self.total_tasks.saturating_add(1);
        self.total_latency_us = self.total_latency_us.saturating_add(latency_us as u128);
        if missed {
            self.missed_deadlines = self.missed_deadlines.saturating_add(1);
        }
    }

    /// Mean latency in microseconds, rounded down, or `None` with no task.
    pub fn average_latency_us(&self) -> (r: Option<u128>)
        ensures
            r == if self.total_tasks == 0 {
                None
            } else {
                Some((self.total_latency_us / self.total_tasks as u128) as u128)
            },
    {
        if self.total_tasks == 0 {
            None
        } else {
            Some(self.total_latency_us / self.total_tasks as u128)
        }
    }
}

} // verus!
