use vstd::prelude::*;

use super::bits::{bit_flip, lfsr_step, pick_bit, roll, should_inject, spec_bit_flip, Lfsr};
use super::inject::{corrupt_at, corrupt_byte, delay_cycles, delay_cycles_for, is_bit_fault, InjectorState};
use crate::shared::faults::{FaultConfig, FaultType};

verus! {

/// Answer and injector state for a presence-pulse check: suppressed (true,
/// with a delay of the configured duration) when a timeout fault is due.
pub open spec fn ow_presence(s: InjectorState) -> (bool, InjectorState) {
    let (inject, s1) = roll(s.lfsr, s.config.probability_permille);
    if inject && s.config.fault_type == FaultType::Timeout {
        (true, InjectorState { lfsr: s1, delay_cycles: delay_cycles_for(s.config.duration_us) as u32, ..s })
    } else {
        (false, InjectorState { lfsr: s1, delay_cycles: 0, ..s })
    }
}

/// Result and injector state after corrupting data byte number `index`: bit
/// faults corrupt one bit; a CRC fault flips a pseudo-random bit of the bytes
/// from index 8 on (the CRC byte of a ROM code) and leaves earlier ones alone.
pub open spec fn ow_data(s: InjectorState, byte: u8, index: usize) -> (u8, InjectorState) {
    let (inject, s1) = roll(s.lfsr, s.config.probability_permille);
    let ft = s.config.fault_type;
    if !inject {
        (byte, InjectorState { lfsr: s1, delay_cycles: 0, ..s })
    } else if is_bit_fault(ft) {
        let (r, s2) = corrupt_at(ft, byte, s.config.target_bit, 8, s1);
        (r, InjectorState { lfsr: s2, count: (s.count + 1) as u32, delay_cycles: 0, ..s })
    } else if ft == FaultType::CrcCorrupt && index >= 8 {
        let s2 = lfsr_step(s1);
        (spec_bit_flip(byte, (s2 & 7) as u8), InjectorState {
            lfsr: s2,
            count: (s.count + 1) as u32,
            delay_cycles: 0,
            ..s
        })
    } else {
        (byte, InjectorState { lfsr: s1, count: (s.count + 1) as u32, delay_cycles: 0, ..s })
    }
}

/// Injector state after a slot-timing check: the register only moves when a
/// bit delay is configured, and the configured delay is asked for when it is due.
pub open spec fn ow_timing(s: InjectorState) -> InjectorState {
    if s.config.fault_type != FaultType::BitDelay {
        InjectorState { delay_cycles: 0, ..s }
    } else {
        let (inject, s1) = roll(s.lfsr, s.config.probability_permille);
        InjectorState {
            lfsr: s1,
            delay_cycles: if inject { delay_cycles_for(s.config.duration_us) as u32 } else { 0 },
            ..s
        }
    }
}

/// Answer and injector state for a reset-pulse check: glitched (true, with a
/// 100-cycle wait) when a clock glitch is due.
pub open spec fn ow_reset(s: InjectorState) -> (bool, InjectorState) {
    let (inject, s1) = roll(s.lfsr, s.config.probability_permille);
    if inject && s.config.fault_type == FaultType::ClockGlitch {
        (true, InjectorState { lfsr: s1, delay_cycles: 100, ..s })
    } else {
        (false, InjectorState { lfsr: s1, delay_cycles: 0, ..s })
    }
}

/// Result and injector state after corrupting a ROM command: only a bit flip
/// changes it.
pub open spec fn ow_rom(s: InjectorState, cmd: u8) -> (u8, InjectorState) {
    let (inject, s1) = roll(s.lfsr, s.config.probability_permille);
    if !inject {
        (cmd, InjectorState { lfsr: s1, delay_cycles: 0, ..s })
    } else if s.config.fault_type == FaultType::BitFlip {
        let (r, s2) = corrupt_at(FaultType::BitFlip, cmd, s.config.target_bit, 8, s1);
        (r, InjectorState { lfsr: s2, count: (s.count + 1) as u32, delay_cycles: 0, ..s })
    } else {
        (cmd, InjectorState { lfsr: s1, count: (s.count + 1) as u32, delay_cycles: 0, ..s })
    }
}

/// Whether a data or ROM-command call keeps the fault counter in range.
pub open spec fn ow_count_ok(s: InjectorState) -> bool {
    roll(s.lfsr, s.config.probability_permille).0 ==> s.count < u32::MAX
}

/// Whether a presence or timing check for `wanted` keeps the cycle count in range.
pub open spec fn ow_delay_ok(s: InjectorState, wanted: FaultType) -> bool {
    s.config.fault_type == wanted && roll(s.lfsr, s.config.probability_permille).0
        ==> delay_cycles_for(s.config.duration_us) <= u32::MAX
}

/// Fault injector for 1-Wire transactions.
pub struct OneWireFaultInjector {
    config: FaultConfig,
    lfsr: Lfsr,
    injected_count: u32,
    delay_cycles: u32,
}

impl View for OneWireFaultInjector {
    type V = InjectorState;

    closed spec fn view(&self) -> InjectorState {
        InjectorState {
            config: self.config,
            lfsr: self.lfsr@,
            count: self.injected_count,
            delay_cycles: self.delay_cycles,
        }
    }
}

impl OneWireFaultInjector {
    pub fn new(config: FaultConfig) -> (r: OneWireFaultInjector)
        ensures
            r@ == (InjectorState { config, lfsr: 0x5678, count: 0, delay_cycles: 0 }),
    {
        OneWireFaultInjector { config, lfsr: Lfsr::new(0x5678), injected_count: 0, delay_cycles: 0 }
    }

    /// Whether the presence pulse should be suppressed.
    pub fn inject_presence(&mut self) -> (r: bool)
        requires
            ow_delay_ok(old(self)@, FaultType::Timeout),
        ensures
            (r, final(self)@) == ow_presence(old(self)@),
    {
        self.delay_cycles = 0;
        if !self.should_inject() {
            return false;
        }
        if self.config.fault_type == FaultType::Timeout {
            self.delay_cycles = delay_cycles(self.config.duration_us);
            return true;
        }
        false
    }

    /// Corrupts data byte number `index` of a transaction when a fault is due.
    pub fn inject_data(&mut self, byte: u8, index: usize) -> (r: u8)
        requires
            ow_count_ok(old(self)@),
        ensures
            (r, final(self)@) == ow_data(old(self)@, byte, index),
    {
        self.delay_cycles = 0;
        if !self.should_inject() {
            return byte;
        }
        let ft = self.config.fault_type;
        let result = match ft {
            FaultType::BitFlip | FaultType::StuckAtZero | FaultType::StuckAtOne => {
                corrupt_byte(&mut self.lfsr, ft, byte, self.config.target_bit, 8)
            },
            FaultType::CrcCorrupt => {
                if index >= 8 {
                    let bit = self.lfsr.next_bit();
                    bit_flip(byte, bit)
                } else {
                    byte
                }
            },
            _ => byte,
        };
        self.injected_count += 1;
        result
    }

    /// Asks for a slot-timing violation of the configured duration when a bit
    /// delay is configured and due.
    pub fn inject_timing(&mut self)
        requires
            ow_delay_ok(old(self)@, FaultType::BitDelay),
        ensures
            final(self)@ == ow_timing(old(self)@),
    {
        self.delay_cycles = 0;
        if self.config.fault_type == FaultType::BitDelay && self.should_inject() {
            self.delay_cycles = delay_cycles(self.config.duration_us);
        }
    }

    /// Whether the reset pulse should be glitched.
    pub fn inject_reset_pulse(&mut self) -> (r: bool)
        ensures
            (r, final(self)@) == ow_reset(old(self)@),
    {
        self.delay_cycles = 0;
        if !self.should_inject() {
            return false;
        }
        if self.config.fault_type == FaultType::ClockGlitch {
            self.delay_cycles = 100;
            return true;
        }
        false
    }

    /// Corrupts a ROM command byte when a bit flip is due.
    pub fn inject_rom_command(&mut self, cmd: u8) -> (r: u8)
        requires
            ow_count_ok(old(self)@),
        ensures
            (r, final(self)@) == ow_rom(old(self)@, cmd),
    {
        self.delay_cycles = 0;
        if !self.should_inject() {
            return cmd;
        }
        let result = match self.config.fault_type {
            FaultType::BitFlip => corrupt_byte(&mut self.lfsr, FaultType::BitFlip, cmd, self.config.target_bit, 8),
            _ => cmd,
        };
        self.injected_count += 1;
        result
    }

    fn should_inject(&mut self) -> (r: bool)
        ensures
            (r, final(self)@.lfsr) == roll(old(self)@.lfsr, old(self)@.config.probability_permille),
            final(self)@ == (InjectorState { lfsr: final(self)@.lfsr, ..old(self)@ }),
    {
        should_inject(&mut self.lfsr, self.config.probability_permille)
    }

    pub fn injected_count(&self) -> (r: u32)
        ensures
            r == self@.count,
    {
        self.injected_count
    }

    /// Busy-wait, in CPU cycles, that the last call asked for (0 for none).
    pub fn delay_cycles(&self) -> (r: u32)
        ensures
            r == self@.delay_cycles,
    {
        self.delay_cycles
    }
}

/// A CRC fault never touches the bytes before index 8, and always changes a
/// byte from index 8 on when a fault is due.
pub proof fn lemma_ow_crc_only_from_index_8(s: InjectorState, byte: u8, index: usize)
    requires
        s.config.fault_type == FaultType::CrcCorrupt,
    ensures
        index < 8 ==> ow_data(s, byte, index).0 == byte,
        index >= 8 && roll(s.lfsr, s.config.probability_permille).0 ==> ow_data(s, byte, index).0 != byte,
{
    let s1 = roll(s.lfsr, s.config.probability_permille).1;
    super::bits::lemma_bit_flip(byte, (lfsr_step(s1) & 7) as u8);
}

/// A ROM command is only ever changed by a bit flip, and then always.
pub proof fn lemma_ow_rom_only_bit_flip(s: InjectorState, cmd: u8)
    ensures
        s.config.fault_type != FaultType::BitFlip ==> ow_rom(s, cmd).0 == cmd,
        s.config.fault_type == FaultType::BitFlip && roll(s.lfsr, s.config.probability_permille).0
            ==> ow_rom(s, cmd).0 != cmd,
{
    let s1 = roll(s.lfsr, s.config.probability_permille).1;
    let bit = pick_bit(s.config.target_bit, 8, s1).0;
    super::bits::lemma_bit_flip(cmd, bit);
}

/// Data bytes: nothing changes and nothing is counted when no fault is due.
/// When one is due it is counted once; a bit fault aimed at a configured bit
/// `t` below 8 inverts, clears or sets exactly bit `t`; a CRC fault changes
/// exactly one bit of a byte from index 8 on; any other fault passes the byte
/// through.
pub proof fn lemma_ow_data_faults(s: InjectorState, byte: u8, index: usize)
    ensures
        !roll(s.lfsr, s.config.probability_permille).0 ==> ow_data(s, byte, index).0 == byte
            && ow_data(s, byte, index).1.count == s.count,
        roll(s.lfsr, s.config.probability_permille).0 && s.count < u32::MAX ==> ow_data(s, byte, index).1.count
            == s.count + 1,
        roll(s.lfsr, s.config.probability_permille).0 && s.config.target_bit < 8 ==> ({
            let t = s.config.target_bit;
            let r = ow_data(s, byte, index).0;
            &&& s.config.fault_type == FaultType::BitFlip ==> r == byte ^ (1u8 << t)
            &&& s.config.fault_type == FaultType::StuckAtZero ==> r == byte & !(1u8 << t)
            &&& s.config.fault_type == FaultType::StuckAtOne ==> r == byte | (1u8 << t)
        }),
        roll(s.lfsr, s.config.probability_permille).0 && s.config.fault_type == FaultType::CrcCorrupt && index
            >= 8 ==> super::bits::one_bit_apart(ow_data(s, byte, index).0, byte),
        roll(s.lfsr, s.config.probability_permille).0 && !is_bit_fault(s.config.fault_type)
            && s.config.fault_type != FaultType::CrcCorrupt ==> ow_data(s, byte, index).0 == byte,
{
    let s1 = roll(s.lfsr, s.config.probability_permille).1;
    if s.config.target_bit < 8 {
        super::inject::lemma_fault_at_target(s.config.fault_type, byte, s.config.target_bit, 8, s1);
    }
    super::bits::lemma_flip_changes_one_bit(byte, (lfsr_step(s1) & 7) as u8);
}

/// ROM commands: only a due bit flip changes one, at the configured bit `t`
/// when it is below 8, and in exactly one bit in any case.
pub proof fn lemma_ow_rom_faults(s: InjectorState, cmd: u8)
    ensures
        !roll(s.lfsr, s.config.probability_permille).0 ==> ow_rom(s, cmd).0 == cmd && ow_rom(s, cmd).1.count
            == s.count,
        roll(s.lfsr, s.config.probability_permille).0 && s.config.fault_type == FaultType::BitFlip
            ==> super::bits::one_bit_apart(ow_rom(s, cmd).0, cmd),
        roll(s.lfsr, s.config.probability_permille).0 && s.config.fault_type == FaultType::BitFlip
            && s.config.target_bit < 8 ==> ow_rom(s, cmd).0 == cmd ^ (1u8 << s.config.target_bit),
{
    let s1 = roll(s.lfsr, s.config.probability_permille).1;
    if s.config.target_bit < 8 {
        super::inject::lemma_fault_at_target(FaultType::BitFlip, cmd, s.config.target_bit, 8, s1);
    }
    super::bits::lemma_flip_changes_one_bit(cmd, pick_bit(s.config.target_bit, 8, s1).0);
}

/// A presence pulse is suppressed, and a reset pulse glitched, exactly when
/// the roll says a fault is due and the configured fault is a timeout, or a
/// clock glitch, respectively; neither check counts.
pub proof fn lemma_ow_checks_need_roll(s: InjectorState)
    ensures
        ow_presence(s).0 <==> roll(s.lfsr, s.config.probability_permille).0 && s.config.fault_type
            == FaultType::Timeout,
        ow_reset(s).0 <==> roll(s.lfsr, s.config.probability_permille).0 && s.config.fault_type
            == FaultType::ClockGlitch,
        ow_presence(s).1.count == s.count,
        ow_reset(s).1.count == s.count,
        !ow_presence(s).0 ==> ow_presence(s).1.delay_cycles == 0,
        !ow_reset(s).0 ==> ow_reset(s).1.delay_cycles == 0,
        ow_timing(s).delay_cycles != 0 ==> roll(s.lfsr, s.config.probability_permille).0
            && s.config.fault_type == FaultType::BitDelay,
        ow_timing(s).count == s.count,
{
}

} // verus!
