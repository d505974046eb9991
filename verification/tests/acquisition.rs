use avionics_sw_hapsis::acquisition::{baro_cycle, imu_cycle, BaroCycle, ImuCycle};
use avionics_sw_hapsis::acquisition::{BARO_PERIOD_MS, IMU_PERIOD_MS};
use avionics_sw_hapsis::channel::ChannelError;
use avionics_sw_hapsis::channel::{AltitudeChannel, BaroDataChannel, ImuDataChannel};
use avionics_sw_hapsis::publish::{Published, SendPoll};
use avionics_sw_hapsis::sample::{time_stamp_from_micros, BaroData, ImuData, TIMESTAMP_MODULUS};

fn baro(n: u32) -> BaroData {
    BaroData { pressure: 1013.25f32.to_bits(), temperature: 25.0f32.to_bits(), time_stamp: n }
}

fn imu(n: u32) -> ImuData {
    ImuData {
        acceleration: [0, 0, 9.81f32.to_bits()],
        gyro: [0, 0, 0],
        mag: [0, 0, 0],
        time_stamp: n,
    }
}

#[test]
fn periods() {
    assert_eq!(BARO_PERIOD_MS, 500);
    assert_eq!(IMU_PERIOD_MS, 500);
}

#[test]
fn baro_cycle_publishes_sample_and_altitude() {
    let mut raw = BaroDataChannel::new();
    let mut altitude = AltitudeChannel::new();
    let done = baro_cycle(&mut raw, &mut altitude, baro(1), 0.0f32.to_bits());
    assert_eq!(done, BaroCycle { raw: Published::Sent, altitude: Published::Sent, sleep_ms: 500 });
    assert_eq!(raw.try_receive(), Ok(baro(1)));
    assert_eq!(raw.try_receive(), Err(ChannelError::Empty));
    assert_eq!(altitude.try_receive(), Ok(0.0f32.to_bits()));
    assert_eq!(altitude.try_receive(), Err(ChannelError::Empty));
}

#[test]
fn baro_cycle_recovers_each_channel_on_its_own() {
    let mut raw = BaroDataChannel::new();
    let mut altitude = AltitudeChannel::new();
    for n in 0..4 {
        assert_eq!(raw.try_send(baro(n)), Ok(()));
    }
    assert_eq!(altitude.try_send(7), Ok(()));
    let done = baro_cycle(&mut raw, &mut altitude, baro(9), 8);
    assert_eq!(done.raw, Published::Recovered(SendPoll::Ready(Ok(()))));
    assert_eq!(done.altitude, Published::Sent);
    assert_eq!(raw.try_receive(), Ok(baro(9)));
    assert_eq!(raw.try_receive(), Err(ChannelError::Empty));
    assert_eq!(altitude.try_receive(), Ok(7));
    assert_eq!(altitude.try_receive(), Ok(8));
}

#[test]
fn fifth_unconsumed_altitude_replaces_the_backlog() {
    let mut raw = BaroDataChannel::new();
    let mut altitude = AltitudeChannel::new();
    for n in 0..4 {
        let done = baro_cycle(&mut raw, &mut altitude, baro(n), n);
        assert_eq!(done.altitude, Published::Sent);
        assert_eq!(raw.try_receive(), Ok(baro(n)));
    }
    let done = baro_cycle(&mut raw, &mut altitude, baro(4), 4);
    assert_eq!(done.altitude, Published::Recovered(SendPoll::Ready(Ok(()))));
    assert_eq!(altitude.try_receive(), Ok(4));
    assert_eq!(altitude.try_receive(), Err(ChannelError::Empty));
}

#[test]
fn imu_cycle_publishes_the_sample() {
    let mut inertial = ImuDataChannel::new();
    let done = imu_cycle(&mut inertial, imu(1));
    assert_eq!(done, ImuCycle { raw: Published::Sent, sleep_ms: 500 });
    assert_eq!(inertial.try_receive(), Ok(imu(1)));
}

#[test]
fn imu_cycle_recovers_a_full_channel() {
    let mut inertial = ImuDataChannel::new();
    for n in 0..4 {
        assert_eq!(imu_cycle(&mut inertial, imu(n)).raw, Published::Sent);
    }
    let done = imu_cycle(&mut inertial, imu(4));
    assert_eq!(done.raw, Published::Recovered(SendPoll::Ready(Ok(()))));
    assert_eq!(inertial.try_receive(), Ok(imu(4)));
    assert_eq!(inertial.try_receive(), Err(ChannelError::Empty));
}

#[test]
fn time_stamp_wraps_at_two_to_the_32() {
    assert_eq!(TIMESTAMP_MODULUS, 4_294_967_296);
    assert_eq!(time_stamp_from_micros(0), 0);
    assert_eq!(time_stamp_from_micros(1_500_000), 1_500_000);
    assert_eq!(time_stamp_from_micros(4_294_967_295), 4_294_967_295);
    assert_eq!(time_stamp_from_micros(4_294_967_296), 0);
    assert_eq!(time_stamp_from_micros(4_294_967_296 + 17), 17);
    assert_eq!(time_stamp_from_micros(u64::MAX), u32::MAX);
}
