use daq::shared::{TelemetryBus, TelemetryChannel, TelemetryReader};
use daq::telemetry::{telemetry_tick, AdcBackend, CurrentSensor, RtcReader, TemperatureSensor, VoltageSensor};

#[test]
fn voltage_sensor_read() {
    let mut backend = AdcBackend { raw_values: [2048, 0, 0, 0] };
    let sensor = VoltageSensor::new(TelemetryChannel::Voltage);
    let raw = backend.read_raw(&sensor).unwrap();
    assert_eq!(raw, 2048);
}

#[test]
fn voltage_calibration() {
    let mut backend = AdcBackend { raw_values: [2048, 0, 0, 0] };
    let sensor = VoltageSensor::new(TelemetryChannel::Voltage);
    let frame = backend.read_calibrated(&sensor).unwrap();
    assert_eq!(frame.value_i32, 1650);
    assert_eq!(frame.channel, TelemetryChannel::Voltage);
}

#[test]
fn current_sensor_read() {
    let mut backend = AdcBackend { raw_values: [0, 1024, 0, 0] };
    let sensor = CurrentSensor { channel: TelemetryChannel::Current, shunt_mohm: 100 };
    let frame = backend.read_calibrated(&sensor).unwrap();
    assert!(frame.value_i32 > 0);
}

#[test]
fn temperature_sensor_read() {
    let mut backend = AdcBackend { raw_values: [0, 0, 500, 0] };
    let sensor = TemperatureSensor { channel: TelemetryChannel::Temperature, offset_celsius: 0 };
    let frame = backend.read_calibrated(&sensor).unwrap();
    assert_eq!(frame.channel, TelemetryChannel::Temperature);
}

#[test]
fn out_of_range_channel_returns_error() {
    let mut backend = AdcBackend { raw_values: [0; 4] };
    let sensor = VoltageSensor {
        channel: TelemetryChannel::Gpio,
        offset_mv: 0,
        gain: 4095,
    };
    assert!(backend.read_raw(&sensor).is_err());
}

#[test]
fn telemetry_exact_values() {
    let mut backend = AdcBackend { raw_values: [1000, 1024, 500, 0] };
    let v = VoltageSensor::with_calibration(TelemetryChannel::Voltage, 100, 4095);
    // (1000 - 100) * 3300 / 4095 = 725
    assert_eq!(backend.read_calibrated(&v).unwrap().value_i32, 725);
    let c = CurrentSensor { channel: TelemetryChannel::Current, shunt_mohm: 100 };
    // 1024 * 3_300_000 / 4095 = 825201 uV; * 1000 / 100 = 8252010 uA
    let f = backend.read_calibrated(&c).unwrap();
    assert_eq!(f.value_i32, 8_252_010);
    assert_eq!(f.value_u32, 8_252_010);
    let no_shunt = CurrentSensor { channel: TelemetryChannel::Current, shunt_mohm: 0 };
    assert_eq!(backend.read_calibrated(&no_shunt).unwrap().value_i32, 0);
    let t = TemperatureSensor::new(TelemetryChannel::Temperature);
    // 500 * 3300 / 4095 = 402; (402 - 760) * 10 / 25 = -143 (toward zero)
    let tf = backend.read_calibrated(&t).unwrap();
    assert_eq!(tf.value_i32, -143);
    assert_eq!(tf.value_u32, (-143i32) as u32);
    let rtc = RtcReader { uptime_us: 12345 };
    let rf = backend.read_calibrated(&rtc).unwrap();
    assert_eq!(rf.channel, TelemetryChannel::Rtc);
    assert_eq!(rf.timestamp_us, 12345);
    assert_eq!(rf.value_u32, 12345);
    assert_eq!(backend.read_raw(&rtc).unwrap(), 0);
    let gpio = CurrentSensor { channel: TelemetryChannel::Gpio, shunt_mohm: 1 };
    assert!(backend.read_calibrated(&gpio).is_err());
    assert_eq!(TelemetryReader::<VoltageSensor>::channel(&backend), TelemetryChannel::Voltage);
    assert_eq!(TelemetryReader::<RtcReader>::channel(&backend), TelemetryChannel::Rtc);
    assert!(TelemetryReader::<CurrentSensor>::last_reading(&backend).is_none());
    assert_eq!(TelemetryChannel::Gpio.index(), 4);
}

#[test]
fn current_with_shunt_read_as_signed() {
    let mut backend = AdcBackend { raw_values: [0, 100, 0, 0] };
    let c = CurrentSensor { channel: TelemetryChannel::Current, shunt_mohm: 0xFFFF_FFFF };
    // 100 * 3_300_000 / 4095 = 80586 uV; * 1000 / -1
    assert_eq!(backend.read_calibrated(&c).unwrap().value_i32, -80_586_000);
}

#[test]
fn telemetry_tick_fills_and_drains() {
    let mut bus = TelemetryBus::<4>::new();
    let mut backend = AdcBackend { raw_values: [2048, 0, 500, 0] };
    let v = VoltageSensor::new(TelemetryChannel::Voltage);
    let t = TemperatureSensor::new(TelemetryChannel::Temperature);
    assert!(telemetry_tick(&mut bus, &mut backend, &v, &t).is_none());
    assert_eq!(bus.len(), 2);
    let (frames, n) = telemetry_tick(&mut bus, &mut backend, &v, &t).unwrap();
    assert_eq!(n, 4);
    assert_eq!(frames[0].value_i32, 1650);
    assert_eq!(frames[1].value_i32, -143);
    assert_eq!(frames[2].channel, TelemetryChannel::Voltage);
    assert_eq!(bus.len(), 0);
    // A sensor past the table adds nothing.
    let gpio = VoltageSensor::new(TelemetryChannel::Gpio);
    assert!(telemetry_tick(&mut bus, &mut backend, &gpio, &t).is_none());
    assert_eq!(bus.len(), 1);
}
