use rts_control::actuator::{Actuator, FeedbackPolicy, OPERATION_DEADLINE_US};
use rts_control::commander::{ActuatorCommander, CommandOutcome, EmergencyPolicy};
use rts_control::log::SystemLog;
use rts_control::message::{Feedback, SensorData};
use rts_control::mode::SystemMode;
use rts_control::quantity::{SensorType, VALUE_SCALE};
use rts_control::sensor::{Sensor, TransmitAction, TransmitFaults, BIAS_LIMIT};

fn units(x: i64) -> i64 {
    x * VALUE_SCALE
}

fn reading(id: u64, t: SensorType, value: i64, anomaly: bool) -> SensorData {
    SensorData {
        id,
        sensor_type: t,
        value,
        anomaly,
        timestamp: 1000 * id,
        processed_timestamp: None,
    }
}

fn all_routes() -> Vec<SensorType> {
    vec![SensorType::Force, SensorType::Position, SensorType::Temperature]
}

#[test]
fn moving_average_spans_last_five() {
    let mut sensor = Sensor::new(SensorType::Force);
    let mut last = 0;
    for (i, v) in [10, 20, 30, 40, 50, 60].iter().enumerate() {
        let out = sensor.process_data(reading(i as u64 + 1, SensorType::Force, units(*v), false));
        assert!(!out.anomaly);
        last = out.value;
    }
    assert_eq!(last, units(40));
    assert_eq!(sensor.history_buffer.len(), 5);
}

#[test]
fn moving_average_of_first_readings() {
    let mut sensor = Sensor::new(SensorType::Temperature);
    let a = sensor.process_data(reading(1, SensorType::Temperature, units(20), false));
    assert_eq!(a.value, units(20));
    let b = sensor.process_data(reading(2, SensorType::Temperature, units(25), false));
    assert_eq!(b.value, 22_500_000);
    let c = sensor.process_data(reading(3, SensorType::Temperature, 1, false));
    // (20 + 25 + 0.000001) / 3 rounded towards zero
    assert_eq!(c.value, 15_000_000);
}

#[test]
fn anomalous_reading_skips_filter() {
    let mut sensor = Sensor::new(SensorType::Force);
    sensor.process_data(reading(1, SensorType::Force, units(20), false));
    let out = sensor.process_data(reading(2, SensorType::Force, units(61), false));
    assert!(out.anomaly);
    assert_eq!(out.value, units(61));
    assert_eq!(sensor.history_buffer.len(), 1);
    let pos = Sensor::new(SensorType::Position).process_data(reading(3, SensorType::Position, -600_000, false));
    assert!(pos.anomaly);
}

#[test]
fn reading_from_sample_adds_bias_and_numbers() {
    let mut sensor = Sensor::new(SensorType::Force);
    sensor.calibration_offset = -250_000;
    let r = sensor.reading_from_sample(units(20), 77);
    assert_eq!(r.id, 1);
    assert_eq!(r.value, units(20) - 250_000);
    assert_eq!(r.timestamp, 77);
    assert!(!r.anomaly);
    assert_eq!(r.processed_timestamp, None);
    assert_eq!(sensor.reading_from_sample(0, 80).id, 2);
}

#[test]
fn generated_readings_stay_in_range_and_vary() {
    let ranges = [
        (SensorType::Force, 10_000_000, 55_000_000),
        (SensorType::Position, -100_000, 200_000),
        (SensorType::Temperature, 20_000_000, 130_000_000),
    ];
    for (t, lo, hi) in ranges {
        let mut sensor = Sensor::new(t);
        let first = sensor.generate_data(0).value;
        let mut varied = false;
        for i in 1..200u64 {
            let r = sensor.generate_data(i);
            assert_eq!(r.id, i + 1);
            assert!(lo <= r.value && r.value < hi);
            if r.value != first {
                varied = true;
            }
        }
        assert!(varied);
    }
}

#[test]
fn processing_deadline_drops_normal_readings() {
    let mut sensor = Sensor::new(SensorType::Force);
    let data = reading(1, SensorType::Force, units(20), false);
    assert_eq!(sensor.finish_processing(data, 201, 900), None);
    assert_eq!(sensor.benchmark_stats.sensor_missed_deadlines, 1);
    let kept = sensor.finish_processing(data, 200, 950).unwrap();
    assert_eq!(kept.processed_timestamp, Some(950));
    let anomalous = reading(2, SensorType::Force, units(70), true);
    assert!(sensor.finish_processing(anomalous, 5000, 990).is_some());
    assert_eq!(sensor.benchmark_stats.sensor_missed_deadlines, 1);
    assert_eq!(sensor.benchmark_stats.total_proc_time, 5200);
}

#[test]
fn tick_jitter_accounting() {
    let mut sensor = Sensor::new(SensorType::Position);
    sensor.record_tick(0);
    sensor.record_tick(5300);
    sensor.record_tick(9900);
    sensor.record_tick(15100);
    assert_eq!(sensor.benchmark_stats.sensor_count, 4);
    assert_eq!(sensor.benchmark_stats.total_jitter, 400);
    assert_eq!(sensor.benchmark_stats.max_jitter, 300);
    assert_eq!(sensor.next_deadline, 20000);
    sensor.record_generation(12);
    assert_eq!(sensor.benchmark_stats.total_gen_time, 12);
}

#[test]
fn transmit_fault_table() {
    let f = TransmitFaults::standard();
    assert_eq!(f.transmit_action(0), TransmitAction::Drop);
    assert_eq!(f.transmit_action(4), TransmitAction::Drop);
    assert_eq!(f.transmit_action(5), TransmitAction::Send);
    assert_eq!(f.transmit_action(94), TransmitAction::Send);
    assert_eq!(f.transmit_action(95), TransmitAction::Delay);
    assert_eq!(f.transmit_action(99), TransmitAction::Delay);
    let none = TransmitFaults { drop_percent: 0, delay_percent: 0 };
    assert_eq!(none.transmit_action(0), TransmitAction::Send);
    let sensor = Sensor::new(SensorType::Force);
    let mut seen_send = false;
    for _ in 0..200 {
        if sensor.transmit_fault() == TransmitAction::Send {
            seen_send = true;
        }
    }
    assert!(seen_send);
}

#[test]
fn feedback_intake() {
    let mut sensor = Sensor::new(SensorType::Force);
    let fb = Feedback {
        is_ack: false,
        error_msg: "Random Drift Check".to_string(),
        recalibrate_offset: 300_000,
        timestamp: 1000,
    };
    let intake = sensor.apply_feedback(&fb, 1600);
    assert!(intake.late);
    assert!(intake.recalibrated);
    assert!(intake.alert);
    assert_eq!(sensor.calibration_offset, 300_000);
    assert_eq!(sensor.benchmark_stats.actuator_missed_deadlines, 1);
    let ack = Feedback { is_ack: true, error_msg: "no".to_string(), recalibrate_offset: 0, timestamp: 1000 };
    let intake = sensor.apply_feedback(&ack, 1500);
    assert!(!intake.late && !intake.recalibrated && !intake.alert);
    assert_eq!(sensor.calibration_offset, 300_000);
    let huge = Feedback { is_ack: false, error_msg: String::new(), recalibrate_offset: i64::MAX, timestamp: 0 };
    let intake = sensor.apply_feedback(&huge, 0);
    assert!(!intake.alert);
    assert_eq!(sensor.calibration_offset, BIAS_LIMIT);
}

#[test]
fn one_anomaly_then_nine_normal_force_readings() {
    let mut commander = ActuatorCommander::new(all_routes(), EmergencyPolicy::PassThrough);
    let first = commander.handle_sensor_data(reading(1, SensorType::Force, units(70), true), 10);
    assert_eq!(first, CommandOutcome::Withheld);
    assert_eq!(commander.consecutive_anomalies, 1);
    let mut pid_commands = 0;
    for i in 2..=10u64 {
        match commander.handle_sensor_data(reading(i, SensorType::Force, units(25), false), 10 * i) {
            CommandOutcome::Dispatched(cmd) => {
                assert!(cmd.pid_derived);
                assert_eq!(cmd.sensor_type, SensorType::Force);
                assert_eq!(cmd.reading_id, i);
                pid_commands += 1;
            }
            other => panic!("unexpected outcome {:?}", other),
        }
    }
    assert_eq!(pid_commands, 9);
    assert_eq!(commander.system_mode, SystemMode::Normal);
    assert_eq!(commander.consecutive_anomalies, 0);
}

#[test]
fn first_command_effort_matches_control_law() {
    let mut commander = ActuatorCommander::new(all_routes(), EmergencyPolicy::PassThrough);
    match commander.handle_sensor_data(reading(1, SensorType::Force, units(20), false), 42) {
        CommandOutcome::Dispatched(cmd) => {
            assert_eq!(cmd.magnitude, 115_005_000);
            assert_eq!(cmd.issued_at, 42);
            assert_eq!(cmd.generated_at, 1000);
        }
        other => panic!("unexpected outcome {:?}", other),
    }
    assert_eq!(commander.force_pid.prev_error, units(10));
    assert_eq!(commander.position_pid.prev_error, 0);
}

#[test]
fn degraded_mode_halves_effort() {
    let mut commander = ActuatorCommander::new(all_routes(), EmergencyPolicy::PassThrough);
    for i in 1..=4u64 {
        commander.handle_sensor_data(reading(i, SensorType::Force, units(70), true), i);
    }
    assert_eq!(commander.system_mode, SystemMode::Degraded);
    // counter 4 -> 3, still degraded
    match commander.handle_sensor_data(reading(5, SensorType::Force, units(20), false), 5) {
        CommandOutcome::Dispatched(cmd) => assert_eq!(cmd.magnitude, 57_502_500),
        other => panic!("unexpected outcome {:?}", other),
    }
}

#[test]
fn emergency_stop_passes_anomalies_through() {
    let mut commander = ActuatorCommander::new(all_routes(), EmergencyPolicy::PassThrough);
    let mut last = CommandOutcome::Withheld;
    for i in 1..=10u64 {
        last = commander.handle_sensor_data(reading(i, SensorType::Temperature, units(150), true), i);
    }
    assert_eq!(commander.system_mode, SystemMode::EmergencyStop);
    match last {
        CommandOutcome::Dispatched(cmd) => {
            assert!(!cmd.pid_derived);
            assert_eq!(cmd.magnitude, units(150) as i128);
        }
        other => panic!("unexpected outcome {:?}", other),
    }
    assert_eq!(commander.temperature_pid.integral, 0);
}

#[test]
fn emergency_stop_halts_under_halt_policy() {
    let mut commander = ActuatorCommander::new(all_routes(), EmergencyPolicy::Halt);
    let mut outcomes = Vec::new();
    for i in 1..=10u64 {
        outcomes.push(commander.handle_sensor_data(reading(i, SensorType::Position, 900_000, true), i));
    }
    assert_eq!(outcomes[8], CommandOutcome::Withheld);
    assert_eq!(outcomes[9], CommandOutcome::EmergencyHalt);
}

#[test]
fn fail_safe_leaves_normal_readings_to_control() {
    let mut commander = ActuatorCommander::new(all_routes(), EmergencyPolicy::PassThrough);
    let r = commander.fail_safe(&reading(1, SensorType::Force, units(20), false), 3);
    assert_eq!(r, None);
    let r = commander.fail_safe(&reading(2, SensorType::Force, units(80), true), 4);
    assert_eq!(r, Some(CommandOutcome::Withheld));
    assert_eq!(commander.consecutive_anomalies, 1);
}

#[test]
fn commands_without_actuator_are_unrouted() {
    let mut commander = ActuatorCommander::new(vec![SensorType::Force], EmergencyPolicy::PassThrough);
    assert!(commander.has_route(SensorType::Force));
    assert!(!commander.has_route(SensorType::Position));
    match commander.handle_sensor_data(reading(1, SensorType::Position, 100_000, false), 1) {
        CommandOutcome::Unrouted(cmd) => assert_eq!(cmd.sensor_type, SensorType::Position),
        other => panic!("unexpected outcome {:?}", other),
    }
}

#[test]
fn transit_deadline_accounting() {
    let mut commander = ActuatorCommander::new(all_routes(), EmergencyPolicy::PassThrough);
    let mut data = reading(1, SensorType::Force, units(30), false);
    data.processed_timestamp = Some(1000);
    commander.handle_sensor_data(data, 1150);
    assert_eq!(commander.benchmark_stats.total_trans_time, 150);
    assert_eq!(commander.benchmark_stats.sensor_missed_deadlines, 1);
    data.processed_timestamp = Some(2000);
    commander.handle_sensor_data(data, 2100);
    assert_eq!(commander.benchmark_stats.total_trans_time, 250);
    assert_eq!(commander.benchmark_stats.sensor_missed_deadlines, 1);
    commander.record_handling_time(7);
    assert_eq!(commander.benchmark_stats.total_actuator_time, 7);
}

#[test]
fn actuator_jitter_and_deadline() {
    let mut act = Actuator::new("Motor".to_string(), SensorType::Force);
    assert_eq!(act.operation_deadline, OPERATION_DEADLINE_US);
    act.update_jitter(100);
    assert_eq!(act.benchmark_stats.total_at_jitter, 0);
    act.update_jitter(5300);
    act.update_jitter(9500);
    assert_eq!(act.benchmark_stats.total_at_jitter, 200 + 800);
    assert_eq!(act.benchmark_stats.max_at_jitter, 800);
    assert_eq!(act.last_arrival_time, Some(9500));
    assert!(!act.finish_operation(2000));
    assert!(act.finish_operation(2001));
    assert_eq!(act.benchmark_stats.actuator_missed_deadlines, 1);
    act.record_cycle(120, 9700, 9000);
    assert_eq!(act.benchmark_stats.total_actuator_time, 120);
    assert_eq!(act.benchmark_stats.total_latency, 700);
    assert_eq!(act.benchmark_stats.actuator_count, 1);
}

#[test]
fn actuator_feedback_forms() {
    let act = Actuator::new("Gripper".to_string(), SensorType::Position);
    let ack = act.feedback_from_roll(94, 123, 50);
    assert!(ack.is_ack);
    assert_eq!(ack.error_msg, "no");
    assert_eq!(ack.recalibrate_offset, 0);
    assert_eq!(ack.timestamp, 50);
    let recal = act.feedback_from_roll(95, -123, 60);
    assert!(!recal.is_ack);
    assert_eq!(recal.error_msg, "Random Drift Check");
    assert_eq!(recal.recalibrate_offset, -123);
    assert!(!Actuator::should_return(&ack, FeedbackPolicy::RecalibrationOnly));
    assert!(Actuator::should_return(&ack, FeedbackPolicy::All));
    assert!(Actuator::should_return(&recal, FeedbackPolicy::RecalibrationOnly));
    for i in 0..300u64 {
        let fb = act.generate_feedback(i);
        assert_eq!(fb.timestamp, i);
        if fb.is_ack {
            assert_eq!(fb.recalibrate_offset, 0);
        } else {
            assert!(-500_000 <= fb.recalibrate_offset && fb.recalibrate_offset < 500_000);
        }
    }
}

#[test]
fn system_log_records_and_shuts_down() {
    let mut log = SystemLog::new();
    assert!(log.is_active());
    log.write("first".to_string());
    log.alert("CRITICAL".to_string());
    assert_eq!(log.entries, vec!["first".to_string(), "CRITICAL".to_string()]);
    assert_eq!(log.alerts, vec!["CRITICAL".to_string()]);
    log.shutdown();
    assert!(!log.is_active());
    assert_eq!(log.entries.len(), 2);
}
