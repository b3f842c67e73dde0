use daq::fault::bitbang::{assemble_byte, frame_levels};
use daq::fault::{
    bit_clear, bit_flip, bit_set, should_inject, CanBus, CanFaultInjector, FaultEngine, I2cFaultInjector, Lfsr,
    OneWireFaultInjector, SpiFaultInjector, UartBus, UartFaultInjector,
};
use daq::shared::{FaultCommand, FaultConfig, FaultInjector, FaultResult, FaultType, Protocol};

#[test]
fn bit_flip_toggles() {
    assert_eq!(bit_flip(0b1010_0000, 0), 0b1010_0001);
    assert_eq!(bit_flip(0b1010_0001, 0), 0b1010_0000);
    assert_eq!(bit_flip(0b0000_0000, 7), 0b1000_0000);
}

#[test]
fn bit_set_forces_high() {
    assert_eq!(bit_set(0b0000_0000, 3), 0b0000_1000);
    assert_eq!(bit_set(0b0000_1000, 3), 0b0000_1000);
}

#[test]
fn bit_clear_forces_low() {
    assert_eq!(bit_clear(0b1111_1111, 4), 0b1110_1111);
    assert_eq!(bit_clear(0b0000_0000, 4), 0b0000_0000);
}

#[test]
fn bit_wraps_on_overflow() {
    assert_eq!(bit_flip(0xFF, 8), 0xFE);
    assert_eq!(bit_flip(0xFF, 16), 0xFE);
}

#[test]
fn lfsr_produces_values() {
    let mut lfsr = Lfsr::new(0xACE1);
    let v1 = lfsr.next();
    let v2 = lfsr.next();
    assert_ne!(v1, 0);
    assert_ne!(v2, 0);
    assert_ne!(v1, v2);
}

#[test]
fn lfsr_maximal_period() {
    let seed = 0xACE1u16;
    let mut lfsr = Lfsr::new(seed);
    let mut seen = vec![false; 65536];
    for k in 1..=65535u32 {
        let v = lfsr.next();
        assert_ne!(v, 0);
        assert!(!seen[v as usize], "state repeated at step {}", k);
        seen[v as usize] = true;
    }
    assert_eq!(lfsr.next(), {
        let mut again = Lfsr::new(seed);
        again.next()
    });
}

#[test]
fn lfsr_next_bit_range() {
    let mut lfsr = Lfsr::new(42);
    for _ in 0..100 {
        assert!(lfsr.next_bit() < 8);
    }
}

#[test]
fn should_inject_full_permille() {
    let mut lfsr = Lfsr::new(1);
    for _ in 0..1000 {
        assert!(should_inject(&mut lfsr, 1000));
    }
}

#[test]
fn should_inject_zero_permille() {
    let mut lfsr = Lfsr::new(1);
    for _ in 0..1000 {
        assert!(!should_inject(&mut lfsr, 0));
    }
}

#[test]
fn engine_arm_disarm() {
    let mut engine = FaultEngine::new();
    assert!(!engine.is_armed());
    assert_eq!(engine.handle_command(FaultCommand::Arm), FaultResult::Armed);
    assert!(engine.is_armed());
    assert_eq!(engine.handle_command(FaultCommand::Disarm), FaultResult::Disarmed);
    assert!(!engine.is_armed());
}

#[test]
fn engine_fire_when_armed() {
    let mut engine = FaultEngine::new().with_config(FaultConfig::new(Protocol::I2c, FaultType::NackInjection));
    engine.handle_command(FaultCommand::Arm);
    assert_eq!(engine.handle_command(FaultCommand::Fire), FaultResult::Fired);
    assert!(engine.should_inject());
    assert_eq!(engine.fire_count(), 1);
}

#[test]
fn engine_fire_when_disarmed() {
    let mut engine = FaultEngine::new();
    assert_eq!(engine.handle_command(FaultCommand::Fire), FaultResult::Error);
}

#[test]
fn engine_status() {
    let mut engine = FaultEngine::new();
    assert_eq!(engine.handle_command(FaultCommand::Status), FaultResult::Disarmed);
    engine.handle_command(FaultCommand::Arm);
    assert_eq!(engine.handle_command(FaultCommand::Status), FaultResult::Armed);
    engine.handle_command(FaultCommand::Fire);
    assert_eq!(engine.handle_command(FaultCommand::Status), FaultResult::Completed);
}

#[test]
fn engine_reset() {
    let mut engine = FaultEngine::new();
    engine.handle_command(FaultCommand::Arm);
    engine.handle_command(FaultCommand::Fire);
    assert_eq!(engine.handle_command(FaultCommand::Reset), FaultResult::Disarmed);
    assert!(!engine.is_armed());
    assert!(!engine.should_inject());
    assert_eq!(engine.fire_count(), 0);
}

#[test]
fn engine_config_override() {
    let engine = FaultEngine::new().with_config(FaultConfig::new(Protocol::Can, FaultType::BitFlip).at_bit(5));
    assert_eq!(engine.config().protocol, Protocol::Can);
    assert_eq!(engine.config().target_bit, 5);
}

#[test]
fn engine_handles_control_bytes() {
    let mut engine = FaultEngine::new();
    assert_eq!(engine.handle_byte(0x00), None);
    assert_eq!(engine.handle_byte(0x06), None);
    assert_eq!(engine.handle_byte(0x03), Some(FaultResult::Error.code()));
    assert_eq!(engine.handle_byte(0x01), Some(0));
    assert_eq!(engine.handle_byte(0x03), Some(2));
    assert_eq!(engine.handle_byte(0x04), Some(3));
    assert_eq!(engine.handle_byte(0x02), Some(1));
    assert_eq!(engine.handle_byte(0x05), Some(1));
    assert_eq!(engine.fire_count(), 0);
    assert_eq!(FaultCommand::from_byte(0x04), Some(FaultCommand::Status));
}

#[test]
fn engine_counts_fires_and_reset_stats() {
    let mut engine = FaultEngine::new();
    engine.handle_command(FaultCommand::Arm);
    for _ in 0..5 {
        engine.handle_command(FaultCommand::Fire);
    }
    assert_eq!(engine.fire_count(), 5);
    engine.reset_stats();
    assert_eq!(engine.fire_count(), 0);
    assert!(engine.should_inject());
}

#[test]
fn spi_bit_flip() {
    let cfg = FaultConfig::new(Protocol::Spi, FaultType::BitFlip).at_bit(0);
    let mut inj = SpiFaultInjector::new(cfg);
    let result = inj.inject_mosi(0b1010_0000);
    assert_eq!(result, 0b1010_0001);
}

#[test]
fn spi_stuck_at_zero() {
    let cfg = FaultConfig::new(Protocol::Spi, FaultType::StuckAtZero).at_bit(7);
    let mut inj = SpiFaultInjector::new(cfg);
    let result = inj.inject_mosi(0b1111_1111);
    assert_eq!(result, 0b0111_1111);
}

#[test]
fn spi_stuck_at_one() {
    let cfg = FaultConfig::new(Protocol::Spi, FaultType::StuckAtOne).at_bit(3);
    let mut inj = SpiFaultInjector::new(cfg);
    let result = inj.inject_mosi(0b0000_0000);
    assert_eq!(result, 0b0000_1000);
}

#[test]
fn spi_zero_probability_no_inject() {
    let cfg = FaultConfig::new(Protocol::Spi, FaultType::BitFlip).probability(0);
    let mut inj = SpiFaultInjector::new(cfg);
    let result = inj.inject_mosi(0xAA);
    assert_eq!(result, 0xAA);
    assert_eq!(inj.injected_count(), 0);
}

#[test]
fn spi_long_bit_delay_on_miso() {
    let mut cfg = FaultConfig::new(Protocol::Spi, FaultType::BitDelay);
    cfg.duration_us = 300_000_000;
    let mut inj = SpiFaultInjector::new(cfg);
    assert_eq!(inj.inject_miso(0x5A), 0x5A);
    assert_eq!(inj.delay_cycles(), 0);
    assert_eq!(inj.injected_count(), 1);
}

#[test]
fn spi_delays_and_miso() {
    let mut cfg = FaultConfig::new(Protocol::Spi, FaultType::BitDelay);
    cfg.duration_us = 10;
    let mut inj = SpiFaultInjector::new(cfg);
    assert_eq!(inj.inject_mosi(0x55), 0x55);
    assert_eq!(inj.delay_cycles(), 210);
    assert_eq!(inj.injected_count(), 1);
    assert_eq!(inj.inject_miso(0x55), 0x55);
    assert_eq!(inj.delay_cycles(), 0);
    assert_eq!(inj.injected_count(), 2);

    let mut glitch = SpiFaultInjector::new(FaultConfig::new(Protocol::Spi, FaultType::ClockGlitch));
    glitch.inject_clock();
    assert_eq!(glitch.delay_cycles(), 2100);
    glitch.inject_cs_hold();
    assert_eq!(glitch.delay_cycles(), 0);
    assert_ne!(glitch.inject_mosi(0x00), 0x00);
    assert_eq!(glitch.delay_cycles(), 5);

    let mut hold = SpiFaultInjector::new(FaultConfig::new(Protocol::Spi, FaultType::Timeout));
    hold.inject_cs_hold();
    assert_eq!(hold.delay_cycles(), 2100);
}

#[test]
fn i2c_bit_flip_address() {
    let cfg = FaultConfig::new(Protocol::I2c, FaultType::BitFlip).at_bit(0);
    let mut inj = I2cFaultInjector::new(cfg);
    let (addr, _) = inj.inject_address(0x50, false);
    assert_eq!(addr, 0x51);
}

#[test]
fn i2c_nack_detection() {
    let cfg = FaultConfig::new(Protocol::I2c, FaultType::NackInjection);
    let mut inj = I2cFaultInjector::new(cfg);
    assert!(inj.should_nack());
}

#[test]
fn i2c_bus_lockup() {
    let cfg = FaultConfig::new(Protocol::I2c, FaultType::BusLockup);
    let mut inj = I2cFaultInjector::new(cfg);
    assert!(inj.should_lock_bus());
}

#[test]
fn i2c_no_nack_when_bitflip() {
    let cfg = FaultConfig::new(Protocol::I2c, FaultType::BitFlip);
    let mut inj = I2cFaultInjector::new(cfg);
    assert!(!inj.should_nack());
    assert!(!inj.should_lock_bus());
}

#[test]
fn i2c_data_injection() {
    let cfg = FaultConfig::new(Protocol::I2c, FaultType::StuckAtZero).at_bit(3);
    let mut inj = I2cFaultInjector::new(cfg);
    let result = inj.inject_data(0xFF);
    assert_eq!(result, 0xF7);
}

#[test]
fn i2c_address_keeps_top_bit_and_flag() {
    let cfg = FaultConfig::new(Protocol::I2c, FaultType::StuckAtZero);
    let mut inj = I2cFaultInjector::new(cfg);
    for _ in 0..50 {
        let (addr, read) = inj.inject_address(0xFF, true);
        assert!(read);
        assert_eq!(addr & 0x80, 0x80);
        assert_eq!(addr.count_ones(), 7);
    }
    assert_eq!(inj.injected_count(), 50);
    let mut lock = I2cFaultInjector::new(FaultConfig::new(Protocol::I2c, FaultType::BusLockup));
    lock.inject_scl_hold();
    assert_eq!(lock.delay_cycles(), 2100);
    lock.inject_sda_delay();
    assert_eq!(lock.delay_cycles(), 0);
}

#[test]
fn onewire_bit_flip() {
    let cfg = FaultConfig::new(Protocol::OneWire, FaultType::BitFlip).at_bit(0);
    let mut inj = OneWireFaultInjector::new(cfg);
    let result = inj.inject_data(0b1111_1110, 0);
    assert_eq!(result, 0b1111_1111);
}

#[test]
fn onewire_crc_corrupt_only_after_index8() {
    let cfg = FaultConfig::new(Protocol::OneWire, FaultType::CrcCorrupt);
    let mut inj = OneWireFaultInjector::new(cfg);
    let d0 = inj.inject_data(0xFF, 0);
    let d10 = inj.inject_data(0xFF, 10);
    assert_eq!(d0, 0xFF);
    assert_ne!(d10, 0xFF);
}

#[test]
fn onewire_presence_suppressed() {
    let cfg = FaultConfig::new(Protocol::OneWire, FaultType::Timeout);
    let mut inj = OneWireFaultInjector::new(cfg);
    assert!(inj.inject_presence());
}

#[test]
fn onewire_reset_glitch() {
    let cfg = FaultConfig::new(Protocol::OneWire, FaultType::ClockGlitch);
    let mut inj = OneWireFaultInjector::new(cfg);
    assert!(inj.inject_reset_pulse());
}

#[test]
fn onewire_rom_command_flip() {
    let cfg = FaultConfig::new(Protocol::OneWire, FaultType::BitFlip).at_bit(0);
    let mut inj = OneWireFaultInjector::new(cfg);
    let result = inj.inject_rom_command(0xCC);
    assert_eq!(result, 0xCD);
}

#[test]
fn onewire_delays_and_rom_other_faults() {
    let mut inj = OneWireFaultInjector::new(FaultConfig::new(Protocol::OneWire, FaultType::Timeout));
    assert!(inj.inject_presence());
    assert_eq!(inj.delay_cycles(), 2100);
    assert!(!inj.inject_reset_pulse());
    assert_eq!(inj.delay_cycles(), 0);
    assert_eq!(inj.inject_rom_command(0xCC), 0xCC);
    assert_eq!(inj.injected_count(), 1);
    let mut timing = OneWireFaultInjector::new(FaultConfig::new(Protocol::OneWire, FaultType::BitDelay));
    timing.inject_timing();
    assert_eq!(timing.delay_cycles(), 2100);
    let mut glitch = OneWireFaultInjector::new(FaultConfig::new(Protocol::OneWire, FaultType::ClockGlitch));
    assert!(glitch.inject_reset_pulse());
    assert_eq!(glitch.delay_cycles(), 100);
}

#[test]
fn uart_bit_flip_tx() {
    let cfg = FaultConfig::new(Protocol::Uart, FaultType::BitFlip).at_bit(0);
    let mut inj = UartFaultInjector::new();
    inj.configure(&cfg).unwrap();
    inj.arm().unwrap();
    assert_eq!(inj.inject_tx(0b1010_0000), 0b1010_0001);
}

#[test]
fn uart_stuck_at_zero_rx() {
    let cfg = FaultConfig::new(Protocol::Uart, FaultType::StuckAtZero).at_bit(4);
    let mut inj = UartFaultInjector::new();
    inj.configure(&cfg).unwrap();
    inj.arm().unwrap();
    assert_eq!(inj.inject_rx(0xFF), 0xEF);
}

#[test]
fn uart_overrun() {
    let cfg = FaultConfig::new(Protocol::Uart, FaultType::Overrun);
    let mut inj = UartFaultInjector::new();
    inj.configure(&cfg).unwrap();
    inj.arm().unwrap();
    assert!(inj.inject_overrun());
    assert!(inj.is_overrun_active());
    inj.clear_overrun();
    assert!(!inj.is_overrun_active());
}

#[test]
fn uart_trait_fire() {
    let cfg = FaultConfig::new(Protocol::Uart, FaultType::BitFlip).at_bit(0);
    let mut inj = UartFaultInjector::new();
    inj.configure(&cfg).unwrap();
    inj.arm().unwrap();
    let mut bus = UartBus { tx: 0xAA, rx: 0x55 };
    assert_eq!(inj.fire(&mut bus).unwrap(), FaultResult::Fired);
    assert_eq!(bus.tx, 0xAB);
}

#[test]
fn uart_disarmed_and_counting() {
    let mut inj = UartFaultInjector::new();
    assert!(!inj.is_armed());
    assert_eq!(inj.inject_tx(0x12), 0x12);
    let mut bus = UartBus { tx: 1, rx: 2 };
    assert!(inj.fire(&mut bus).is_err());
    assert_eq!(bus.tx, 1);
    inj.configure(&FaultConfig::new(Protocol::Uart, FaultType::ParityError)).unwrap();
    inj.arm().unwrap();
    assert_eq!(inj.inject_tx(0x01), 0x81);
    assert_eq!(inj.injected_count(), 1);
    // Stuck-at-one on a bit already high leaves the byte, and it is not counted.
    inj.configure(&FaultConfig::new(Protocol::Uart, FaultType::StuckAtOne).at_bit(0)).unwrap();
    assert_eq!(inj.inject_rx(0x01), 0x01);
    assert_eq!(inj.injected_count(), 1);
    inj.configure(&FaultConfig::new(Protocol::Uart, FaultType::BitDelay)).unwrap();
    assert_eq!(inj.inject_tx(0x33), 0x33);
    assert_eq!(inj.delay_cycles(), 2100);
    inj.reset_stats();
    assert_eq!(inj.injected_count(), 0);
    inj.configure(&FaultConfig::new(Protocol::Uart, FaultType::Overrun)).unwrap();
    let mut bus = UartBus { tx: 7, rx: 8 };
    assert_eq!(inj.fire(&mut bus).unwrap(), FaultResult::Fired);
    assert_eq!(bus.tx, 7);
    assert!(inj.is_overrun_active());
    inj.disarm().unwrap();
    assert!(!inj.is_overrun_active());
    assert!(!inj.is_armed());
}

#[test]
fn can_bit_flip_id() {
    let cfg = FaultConfig::new(Protocol::Can, FaultType::BitFlip).at_bit(0);
    let mut inj = CanFaultInjector::new();
    inj.configure(&cfg).unwrap();
    inj.arm().unwrap();
    assert_eq!(inj.inject_id(0x0000_0000), 0x0000_0001);
}

#[test]
fn can_stuck_at_zero() {
    let cfg = FaultConfig::new(Protocol::Can, FaultType::StuckAtZero).at_bit(3);
    let mut inj = CanFaultInjector::new();
    inj.configure(&cfg).unwrap();
    inj.arm().unwrap();
    assert_eq!(inj.inject_id(0xFFFF_FFFF), 0xFFFF_FFF7);
}

#[test]
fn can_crc_corrupt() {
    let cfg = FaultConfig::new(Protocol::Can, FaultType::CrcCorrupt);
    let mut inj = CanFaultInjector::new();
    inj.configure(&cfg).unwrap();
    inj.arm().unwrap();
    let d0 = inj.inject_data(0xFF, 0);
    let d4 = inj.inject_data(0xFF, 4);
    assert_eq!(d0, 0xFF);
    assert_ne!(d4, 0xFF);
}

#[test]
fn can_trait_fire() {
    let cfg = FaultConfig::new(Protocol::Can, FaultType::BitFlip).at_bit(0);
    let mut inj = CanFaultInjector::new();
    inj.configure(&cfg).unwrap();
    inj.arm().unwrap();
    let mut bus = CanBus { id: 0, data: [0; 8], dlc: 8 };
    assert_eq!(inj.fire(&mut bus).unwrap(), FaultResult::Fired);
    assert_eq!(bus.id, 0x0000_0001);
}

#[test]
fn engine_command_sequence() {
    let mut engine = FaultEngine::new();
    let cmds = [
        FaultCommand::Fire,
        FaultCommand::Arm,
        FaultCommand::Fire,
        FaultCommand::Status,
        FaultCommand::Disarm,
        FaultCommand::Fire,
        FaultCommand::Arm,
        FaultCommand::Fire,
        FaultCommand::Fire,
    ];
    let answers: Vec<FaultResult> = cmds.iter().map(|&c| engine.handle_command(c)).collect();
    assert_eq!(
        answers,
        vec![
            FaultResult::Error,
            FaultResult::Armed,
            FaultResult::Fired,
            FaultResult::Completed,
            FaultResult::Disarmed,
            FaultResult::Error,
            FaultResult::Armed,
            FaultResult::Fired,
            FaultResult::Fired,
        ]
    );
    assert!(engine.is_armed());
    assert_eq!(engine.fire_count(), 2);
    assert!(engine.should_inject());
    assert_eq!(engine.config().protocol, Protocol::Spi);
}

#[test]
fn can_fire_frame_and_errors() {
    let mut inj = CanFaultInjector::new();
    let mut bus = CanBus { id: 5, data: [1; 8], dlc: 8 };
    assert!(inj.fire(&mut bus).is_err());
    assert!(!inj.inject_stuff_error());
    inj.configure(&FaultConfig::new(Protocol::Can, FaultType::BitFlip).at_bit(1)).unwrap();
    inj.arm().unwrap();
    assert_eq!(inj.fire(&mut bus).unwrap(), FaultResult::Fired);
    assert_eq!(bus.id, 7);
    assert_eq!(bus.data, [3; 8]);
    assert_eq!(inj.injected_count(), 9);
    inj.configure(&FaultConfig::new(Protocol::Can, FaultType::StuckAtOne)).unwrap();
    for _ in 0..20 {
        assert_eq!(inj.inject_id(0) >> 29, 0);
    }
    inj.configure(&FaultConfig::new(Protocol::Can, FaultType::ClockGlitch)).unwrap();
    assert!(inj.inject_stuff_error());
    assert!(!inj.inject_form_error());
    inj.configure(&FaultConfig::new(Protocol::Can, FaultType::FrameCorrupt).probability(0)).unwrap();
    assert!(!inj.inject_form_error());
    inj.configure(&FaultConfig::new(Protocol::Can, FaultType::FrameCorrupt).probability(1)).unwrap();
    assert!(inj.inject_form_error());
    inj.disarm().unwrap();
    assert!(!inj.is_armed());
    inj.reset_stats();
    assert_eq!(inj.injected_count(), 0);
}

#[test]
fn bitbang_frame_roundtrip() {
    for byte in [0x00u8, 0x01, 0x5A, 0xA5, 0xFF] {
        let levels = frame_levels(byte);
        assert_eq!(levels.len(), 10);
        assert!(!levels[0]);
        assert!(levels[9]);
        assert_eq!(assemble_byte(&levels[1..9]), byte);
    }
    assert_eq!(frame_levels(0x01)[1], true);
    assert_eq!(frame_levels(0x01)[2], false);
}
