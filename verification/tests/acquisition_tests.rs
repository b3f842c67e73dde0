use daq::analog::{isnan, AdcPipeline, AnalogSampler};
use daq::health::{canary_address, canary_status, clock_status, ram_status, ram_words, RAM_PATTERN, STACK_CANARY};
use daq::shared::{ChannelId, HealthError, HealthStatus, SamplePacket};
use daq::transport::{get_sample_value, next_timestamp, transport_tick, PacketStream};

#[test]
fn sampler_averages_interleaved_channels() {
    let mut s = AnalogSampler::new();
    let m = [4095u16, 0, 4095, 2048, 1, 1];
    s.update_analog(&m, 4);
    assert_eq!(s.pa0_mv(), 3300);
    assert_eq!(s.pa1_mv(), 825);
    assert_eq!(s.sample_count(), 4);
    // A single reading is ignored.
    s.update_analog(&m, 1);
    assert_eq!(s.sample_count(), 4);
    assert_eq!(AnalogSampler::counts_to_mv(2048), 1650);
}

#[test]
fn sampler_odd_count() {
    let mut s = AnalogSampler::new();
    // Lane 0 holds 3 readings, divided by 3 / 2 = 1.
    s.update_analog(&[100u16, 200, 100, 200, 100], 5);
    assert_eq!(s.pa0_mv(), AnalogSampler::counts_to_mv(150));
    assert_eq!(s.pa1_mv(), AnalogSampler::counts_to_mv(200));
}

#[test]
fn isnan_bounds() {
    assert!(isnan(0));
    assert!(!isnan(1));
    assert!(!isnan(65535));
    assert!(isnan(65536));
}

#[test]
fn stream_hands_out_full_packets() {
    let mut st = PacketStream::new();
    for i in 0..31 {
        st.push(ChannelId::Analog0, i, i);
        assert!(st.take_full().is_none());
    }
    st.push(ChannelId::Analog1, 31, 31);
    let p = st.take_full().unwrap();
    assert_eq!(p.seq, 0);
    assert_eq!(p.magic, SamplePacket::MAGIC);
    assert_eq!(p.count, 32);
    assert_eq!(st.seq, 1);
    assert_eq!(st.packet.count, 0);
    st.seq = u16::MAX;
    for i in 0..32 {
        st.push(ChannelId::Analog0, i, i);
    }
    assert_eq!(st.take_full().unwrap().seq, u16::MAX);
    assert_eq!(st.seq, 0);
}

#[test]
fn pipeline_blocks() {
    let mut p = AdcPipeline::new();
    let m = [2048u16; 8];
    assert!(p.on_samples(&m, 0).is_none());
    assert_eq!(p.last_timestamp, 0);
    for k in 0..15 {
        assert!(p.on_samples(&m, 100).is_none());
        assert_eq!(p.last_timestamp, (k + 1) * 800);
    }
    let pkt = p.on_samples(&m, 8).unwrap();
    assert_eq!(pkt.count, 32);
    assert_eq!(pkt.samples[0].channel, ChannelId::Analog0);
    assert_eq!(pkt.samples[1].channel, ChannelId::Analog1);
    assert_eq!(pkt.samples[0].value, 1650);
    assert_eq!(pkt.samples[2].timestamp_us, 800);
    assert_eq!(p.stream.seq, 1);
    // Zero averages are not pushed.
    let z = [0u16; 4];
    p.on_samples(&z, 4);
    assert_eq!(p.stream.packet.count, 0);
}

#[test]
fn transport_helpers() {
    assert_eq!(get_sample_value(0), 0);
    assert_eq!(get_sample_value(1), 2048);
    assert_eq!(next_timestamp(0), 100);
    assert_eq!(next_timestamp(u32::MAX), 99);
}

#[test]
fn health_checks() {
    assert_eq!(clock_status(0, 1, 1), HealthStatus::Fail(HealthError::ClockOutOfRange));
    assert_eq!(clock_status(1, 0, 0), HealthStatus::Fail(HealthError::TimerNotTicking));
    assert_eq!(clock_status(1, 1, 0), HealthStatus::Fail(HealthError::ClockHclkNotRunning));
    assert_eq!(clock_status(84_000_000, 84_000_000, 84_000_000), HealthStatus::Ready);
    assert_eq!(canary_address(0), None);
    assert_eq!(canary_address(0x2001_8000), Some(0x2001_7000));
    assert_eq!(canary_status(STACK_CANARY), HealthStatus::Ready);
    assert_eq!(canary_status(0), HealthStatus::Fail(HealthError::StackCanary));
    assert_eq!(ram_words(0x2000_0000, 0x2000_0010), 4);
    assert_eq!(ram_status(&[RAM_PATTERN; 4]), HealthStatus::Ready);
    assert_eq!(ram_status(&[]), HealthStatus::Ready);
    assert_eq!(ram_status(&[RAM_PATTERN, 0]), HealthStatus::Fail(HealthError::RamTest));
}

#[test]
fn transport_ticks() {
    let mut st = PacketStream::new();
    let mut ts = 0u32;
    for k in 0..15u32 {
        let (t, out) = transport_tick(&mut st, ts);
        assert_eq!(t, (k + 1) * 100);
        assert!(out.is_none());
        ts = t;
    }
    let (t, out) = transport_tick(&mut st, ts);
    assert_eq!(t, 1600);
    let p = out.unwrap();
    assert_eq!(p.count, 32);
    assert_eq!(p.samples[0].value, 0);
    assert_eq!(p.samples[1].value, 2048);
    assert_eq!(p.samples[1].channel, ChannelId::Analog1);
    assert_eq!(p.samples[31].timestamp_us, 1600);
    assert_eq!(st.seq, 1);
    assert_eq!(transport_tick(&mut st, u32::MAX).0, 99);
}
