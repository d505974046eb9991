use avionics_sw_hapsis::channel::ChannelError;
use avionics_sw_hapsis::channel::AltitudeChannel;
use avionics_sw_hapsis::control::{ControlCycle, ControlTask, CONTROL_PERIOD_MS};

#[test]
fn control_period_is_a_hundred_milliseconds() {
    assert_eq!(CONTROL_PERIOD_MS, 100);
}

#[test]
fn indicator_starts_high() {
    assert!(ControlTask::new().indicator_high());
}

#[test]
fn cycle_without_data_keeps_the_period() {
    let mut task = ControlTask::new();
    let mut altitude = AltitudeChannel::new();
    let done = task.cycle(&mut altitude);
    assert_eq!(done, ControlCycle { indicator_high: false, altitude: None, sleep_ms: 100 });
}

#[test]
fn cycle_with_data_keeps_the_same_period() {
    let mut task = ControlTask::new();
    let mut altitude = AltitudeChannel::new();
    assert_eq!(altitude.try_send(123.5f32.to_bits()), Ok(()));
    let with_data = task.cycle(&mut altitude);
    let without_data = task.cycle(&mut altitude);
    assert_eq!(with_data.altitude.map(f32::from_bits), Some(123.5));
    assert_eq!(without_data.altitude, None);
    assert_eq!(with_data.sleep_ms, without_data.sleep_ms);
    assert_eq!(with_data.sleep_ms, 100);
}

#[test]
fn cycle_takes_one_value_however_many_are_queued() {
    let mut task = ControlTask::new();
    let mut altitude = AltitudeChannel::new();
    for value in [1u32, 2, 3] {
        assert_eq!(altitude.try_send(value), Ok(()));
    }
    assert_eq!(task.cycle(&mut altitude).altitude, Some(1));
    assert_eq!(altitude.try_receive(), Ok(2));
    assert_eq!(altitude.try_receive(), Ok(3));
    assert_eq!(altitude.try_receive(), Err(ChannelError::Empty));
}

#[test]
fn indicator_toggles_each_cycle() {
    let mut task = ControlTask::new();
    let mut altitude = AltitudeChannel::new();
    assert!(!task.cycle(&mut altitude).indicator_high);
    assert!(!task.indicator_high());
    assert!(task.cycle(&mut altitude).indicator_high);
    assert!(task.indicator_high());
    assert!(!task.cycle(&mut altitude).indicator_high);
}
