use daq::shared::{
    AcquisitionConfig, AdcCalibration, ChannelId, Command, DmaBuf, HealthError, HealthStatus, Response,
    SamplePacket, TelemetryBus, TelemetryChannel, TelemetryFrame, SAMPLES_PER_PACKET,
};

#[test]
fn ready_status_returns_correct_string() {
    assert_eq!(HealthStatus::Ready.as_str(), "READY\n");
}

#[test]
fn fail_adc_returns_correct_string() {
    let status = HealthStatus::Fail(HealthError::AdcCalibration);
    assert_eq!(status.as_str(), "FAIL:adc\n");
}

#[test]
fn fail_clock_returns_correct_string() {
    let status = HealthStatus::Fail(HealthError::ClockOutOfRange);
    assert_eq!(status.as_str(), "FAIL:clk\n");
}

#[test]
fn sample_packet_basic_roundtrip() {
    let mut pkt = SamplePacket::new();
    assert!(!pkt.is_full());
    assert_eq!(pkt.count, 0);

    pkt.push(ChannelId::Analog0, 100, 2048);
    pkt.push(ChannelId::Analog1, 200, 1024);
    assert_eq!(pkt.count, 2);

    pkt.finalize(1);
    assert_eq!(pkt.magic, SamplePacket::MAGIC);
    assert_eq!(pkt.seq, 1);
}

#[test]
fn sample_packet_fills_up() {
    let mut pkt = SamplePacket::new();
    for i in 0..SAMPLES_PER_PACKET {
        assert!(!pkt.is_full());
        pkt.push(ChannelId::Analog0, i as u32 * 100, i as u32);
    }
    assert!(pkt.is_full());
    assert_eq!(pkt.count as usize, SAMPLES_PER_PACKET);
}

#[test]
fn sample_packet_does_not_overflow() {
    let mut pkt = SamplePacket::new();
    for _ in 0..SAMPLES_PER_PACKET + 10 {
        pkt.push(ChannelId::Analog0, 0, 0);
    }
    assert_eq!(pkt.count as usize, SAMPLES_PER_PACKET);
}

#[test]
fn calibration_counts_to_mv() {
    let cal = AdcCalibration::default();
    let mv = cal.counts_to_mv(2048, ChannelId::Analog0);
    assert_eq!(mv, 1650);
}

#[test]
fn calibration_with_offset() {
    let cal = AdcCalibration {
        vref_mv: 3300,
        offset_ch0: 100,
        offset_ch1: 0,
        gain_ch0: 4095,
        gain_ch1: 4095,
    };
    let mv = cal.counts_to_mv(100, ChannelId::Analog0);
    assert_eq!(mv, 0);
}

#[test]
fn sample_packet_byte_size() {
    let pkt = SamplePacket::new();
    // Header: three u16 fields; then each sample in its 16-byte wire form.
    let expected = core::mem::size_of::<u16>() * 3 + 16 * SAMPLES_PER_PACKET;
    assert_eq!(pkt.as_bytes().len(), expected);
}

#[test]
fn health_error_new_variant() {
    let err = HealthStatus::Fail(HealthError::ClockHclkNotRunning);
    assert_eq!(err.as_str(), "FAIL:hclk\n");
}

#[test]
fn health_every_failure_line() {
    let cases = [
        (HealthError::TimerNotTicking, "FAIL:tim\n"),
        (HealthError::StackCanary, "FAIL:stack\n"),
        (HealthError::RamTest, "FAIL:ram\n"),
        (HealthError::FlashCRC, "FAIL:flash\n"),
        (HealthError::I2cInitFailed, "FAIL:i2c\n"),
        (HealthError::SpiInitFailed, "FAIL:spi\n"),
        (HealthError::UartInitFailed, "FAIL:uart\n"),
        (HealthError::DmaInitFailed, "FAIL:dma\n"),
    ];
    for (e, line) in cases {
        assert_eq!(HealthStatus::Fail(e).as_str(), line);
    }
}

#[test]
fn packet_wire_bytes_layout() {
    let mut pkt = SamplePacket::new();
    pkt.push(ChannelId::Analog1, 0x0102_0304, 0xA0B0_C0D0);
    pkt.finalize(0x1234);
    let b = pkt.as_bytes();
    assert_eq!(b.len(), 518);
    assert_eq!(&b[0..6], &[0x71, 0xDA, 0x34, 0x12, 0x01, 0x00]);
    assert_eq!(
        &b[6..22],
        &[1, 0, 0, 0, 0x04, 0x03, 0x02, 0x01, 0xD0, 0xC0, 0xB0, 0xA0, 0, 0, 0, 0]
    );
    // An unfilled slot is a blank sample.
    assert_eq!(&b[22..38], &[0u8; 16]);
}

#[test]
fn packet_push_into_full_packet_keeps_samples() {
    let mut pkt = SamplePacket::new();
    for i in 0..SAMPLES_PER_PACKET {
        pkt.push(ChannelId::Analog0, i as u32, i as u32);
    }
    let before = pkt.as_bytes();
    pkt.push(ChannelId::PwmIn, 9, 9);
    assert_eq!(pkt.as_bytes(), before);
}

#[test]
fn calibration_channels_and_pwm() {
    let cal = AdcCalibration { vref_mv: 3300, offset_ch0: 0, offset_ch1: -5, gain_ch0: 4095, gain_ch1: 1000 };
    assert_eq!(cal.counts_to_mv(4095, ChannelId::Analog0), 3300);
    // (10 + 5) * 3300 / 1000 = 49
    assert_eq!(cal.counts_to_mv(10, ChannelId::Analog1), 49);
    assert_eq!(cal.counts_to_mv(4095, ChannelId::PwmIn), 0);
    // Counts above i32::MAX read as negative and clamp to zero.
    assert_eq!(cal.counts_to_mv(0x8000_0000, ChannelId::Analog0), 0);
}

#[test]
fn acquisition_config_bytes() {
    let cfg = AcquisitionConfig::default();
    assert_eq!(cfg.sample_rate_hz, 10_000);
    assert_eq!(cfg.channels_active, 0x03);
    assert_eq!(cfg.dma_depth, 4096);
    assert_eq!(cfg.as_bytes(), [0x10, 0x27, 0x00, 0x00, 0x03, 0x00, 0x00, 0x10]);
}

#[test]
fn protocol_codes() {
    assert_eq!(Command::StartStream.code(), 0x01);
    assert_eq!(Command::QueryConfig.code(), 0x06);
    assert_eq!(Response::Ack.code(), 0x81);
    assert_eq!(Response::Pong.code(), 0x85);
    assert_eq!(ChannelId::PwmIn.code(), 2);
}

#[test]
fn dma_buffer_length() {
    let mut buf: DmaBuf<u16, 64> = DmaBuf::new();
    assert_eq!(buf.len(), 64);
    let s = buf.as_mut_slice();
    assert_eq!(s.len(), 64);
    assert!(s.iter().all(|&v| v == 0));
    s[3] = 7;
    assert_eq!(buf.as_mut_slice()[3], 7);
}

fn frame(v: i32) -> TelemetryFrame {
    TelemetryFrame { channel: TelemetryChannel::Voltage, timestamp_us: 0, value_i32: v, value_u32: v as u32, flags: 0 }
}

#[test]
fn telemetry_bus_fills_and_drains() {
    let mut bus = TelemetryBus::<2>::new();
    assert!(bus.push(frame(1)));
    assert!(!bus.is_full());
    assert!(bus.push(frame(2)));
    assert!(bus.is_full());
    assert!(!bus.push(frame(3)));
    assert_eq!(bus.len(), 2);
    let (frames, n) = bus.drain();
    assert_eq!(n, 2);
    assert_eq!(&frames[..n], &[frame(1), frame(2)]);
    assert_eq!(bus.len(), 0);
    assert!(bus.push(frame(4)));
    assert_eq!(bus.len(), 1);
}
