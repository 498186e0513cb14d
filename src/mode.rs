use vstd::prelude::*;

verus! {

/// Count of consecutive anomalies at which the system de-rates.
pub const DEGRADE_AT: u32 = 3;

/// Count of consecutive anomalies at which the system stops.
pub const EMERGENCY_AT: u32 = 10;

/// The system-wide fault-escalation state.
#[derive(Debug, Clone, Copy, PartialEq, Eq, Structural)]
pub enum SystemMode {
    Normal,
    Degraded,
    EmergencyStop,
}

/// The counter after one reading: raised by an anomaly (held at
/// `u32::MAX`), lowered by a normal reading (not below zero).
pub open spec fn next_count(count: u32, anomaly: bool) -> u32 {
    if anomaly {
        if count == u32::MAX {
            count
        } else {
            (count + 1) as u32
        }
    } else if count == 0 {
        0
    } else {
        (count - 1) as u32
    }
}

/// The mode once the counter is `c`: `EmergencyStop` at `EMERGENCY_AT` or
/// more; otherwise an emergency stop holds until the counter is zero, when
/// the system returns to `Normal`; otherwise `Degraded` at `DEGRADE_AT` or
/// more, `Normal` at zero, and the mode unchanged in between.
pub open spec fn mode_for_count(mode: SystemMode, c: u32) -> SystemMode {
    if c >= EMERGENCY_AT {
        SystemMode::EmergencyStop
    } else if mode == SystemMode::EmergencyStop {
        if c == 0 {
            SystemMode::Normal
        } else {
            SystemMode::EmergencyStop
        }
    } else if c >= DEGRADE_AT {
        SystemMode::Degraded
    } else if c == 0 {
        SystemMode::Normal
    } else {
        mode
    }
}

/// The mode and anomaly counter after one reading: the counter moves as
/// `next_count` states it, then the thresholds of `mode_for_count` apply.
pub open spec fn next_state(mode: SystemMode, count: u32, anomaly: bool) -> (SystemMode, u32) {
    let c = next_count(count, anomaly);
    (mode_for_count(mode, c), c)
}

/// The mode and counter after `k` readings that are all anomalous (or all
/// normal), starting from `mode` and `count`.
pub open spec fn repeat_state(mode: SystemMode, count: u32, anomaly: bool, k: nat) -> (
    SystemMode,
    u32,
)
    decreases k,
{
    if k == 0 {
        (mode, count)
    } else {
        let (m, c) = next_state(mode, count, anomaly);
        repeat_state(m, c, anomaly, (k - 1) as nat)
    }
}

/// The mode and counter after one reading, as `next_state` states it.
pub fn next_mode_state(mode: SystemMode, count: u32, anomaly: bool) -> (r: (SystemMode, u32))
    ensures
        r == next_state(mode, count, anomaly),
{
    let c: u32 = if anomaly {
        if count == u32::MAX {
            count
        } else {
            count + 1
        }
    } else if count == 0 {
        0
    } else {
        count - 1
    };
    let m = if c >= EMERGENCY_AT {
        SystemMode::EmergencyStop
    } else if mode == SystemMode::EmergencyStop {
        if c == 0 {
            SystemMode::Normal
        } else {
            SystemMode::EmergencyStop
        }
    } else if c >= DEGRADE_AT {
        SystemMode::Degraded
    } else if c == 0 {
        SystemMode::Normal
    } else {
        mode
    };
    (m, c)
}

/// The alert raised when the mode changes from `before` to `after`.
pub open spec fn mode_alert_text(after: SystemMode) -> Seq<char> {
    match after {
        SystemMode::Degraded => "High Anomaly Rate! Switching to DEGRADED MODE."@,
        SystemMode::EmergencyStop => "CRITICAL FAILURE! Switching to E-STOP."@,
        SystemMode::Normal => "System Stabilized. Returning to NORMAL MODE."@,
    }
}

/// The alert for a change of mode from `before` to `after`, or `None` when
/// the mode did not change.
pub fn mode_change_alert(before: SystemMode, after: SystemMode) -> (r: Option<String>)
    ensures
        before == after ==> r is None,
        before != after ==> r is Some && r->0@ == mode_alert_text(after),
{
    if before == after {
        return None;
    }
    let text = match after {
        SystemMode::Degraded => "High Anomaly Rate! Switching to DEGRADED MODE.".to_owned(),
        SystemMode::EmergencyStop => "CRITICAL FAILURE! Switching to E-STOP.".to_owned(),
        SystemMode::Normal => "System Stabilized. Returning to NORMAL MODE.".to_owned(),
    };
    Some(text)
}

proof fn lemma_repeat_last(mode: SystemMode, count: u32, anomaly: bool, k: nat)
    ensures
        repeat_state(mode, count, anomaly, k + 1) == next_state(
            repeat_state(mode, count, anomaly, k).0,
            repeat_state(mode, count, anomaly, k).1,
            anomaly,
        ),
    decreases k,
{
    let (m, c) = next_state(mode, count, anomaly);
    assert(repeat_state(mode, count, anomaly, k + 1) == repeat_state(m, c, anomaly, k));
    if k > 0 {
        lemma_repeat_last(m, c, anomaly, (k - 1) as nat);
        assert(repeat_state(mode, count, anomaly, k) == repeat_state(
            m,
            c,
            anomaly,
            (k - 1) as nat,
        ));
    } else {
        assert(repeat_state(m, c, anomaly, 0) == (m, c));
    }
}

/// The mode reached after `k` consecutive anomalies from a calm start.
pub open spec fn escalated_mode(k: nat) -> SystemMode {
    if k >= EMERGENCY_AT {
        SystemMode::EmergencyStop
    } else if k >= DEGRADE_AT {
        SystemMode::Degraded
    } else {
        SystemMode::Normal
    }
}

/// From `Normal` with a zero counter, `k` consecutive anomalies leave the
/// counter at `k` (held at `u32::MAX`) and the mode `Normal` below three,
/// `Degraded` from three to nine and `EmergencyStop` from ten on: three
/// anomalies degrade the system and a further seven stop it.
pub proof fn lemma_escalation(k: nat)
    ensures
        repeat_state(SystemMode::Normal, 0, true, k).0 == escalated_mode(k),
        repeat_state(SystemMode::Normal, 0, true, k).1 == if k >= u32::MAX {
            u32::MAX as int
        } else {
            k as int
        },
    decreases k,
{
    if k > 0 {
        let j = (k - 1) as nat;
        lemma_escalation(j);
        lemma_repeat_last(SystemMode::Normal, 0, true, j);
    }
}

/// From `EmergencyStop` with counter `c > 0`, or from `Degraded` with a
/// counter `0 < c <= EMERGENCY_AT`, each normal reading lowers the counter by
/// one while the mode stays as it is, and the `c`-th one returns the system
/// to `Normal` (an emergency stop never passes through `Degraded`).
pub proof fn lemma_recovery(mode: SystemMode, c: u32, j: nat)
    requires
        mode == SystemMode::EmergencyStop || (mode == SystemMode::Degraded && c <= EMERGENCY_AT),
        c > 0,
        j <= c,
    ensures
        repeat_state(mode, c, false, j) == if j == c {
            (SystemMode::Normal, 0u32)
        } else {
            (mode, (c - j) as u32)
        },
    decreases j,
{
    if j > 0 {
        let i = (j - 1) as nat;
        lemma_recovery(mode, c, i);
        lemma_repeat_last(mode, c, false, i);
    }
}

} // verus!
