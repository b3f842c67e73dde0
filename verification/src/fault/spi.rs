use vstd::prelude::*;

use super::bits::{lfsr_step, roll, should_inject, spec_bit_flip, Lfsr};
use super::inject::{
    corrupt_at, corrupt_byte, delay_cycles, delay_cycles_for, is_bit_fault, InjectorState,
};
use crate::shared::faults::{FaultConfig, FaultType};

verus! {

/// Result byte and injector state after corrupting a byte travelling on MOSI.
pub open spec fn spi_mosi(s: InjectorState, byte: u8) -> (u8, InjectorState) {
    let (inject, s1) = roll(s.lfsr, s.config.probability_permille);
    let ft = s.config.fault_type;
    if !inject {
        (byte, InjectorState { lfsr: s1, delay_cycles: 0, ..s })
    } else if is_bit_fault(ft) {
        let (r, s2) = corrupt_at(ft, byte, s.config.target_bit, 8, s1);
        (r, InjectorState { lfsr: s2, count: (s.count + 1) as u32, delay_cycles: 0, ..s })
    } else if ft == FaultType::BitDelay {
        (byte, InjectorState {
            lfsr: s1,
            count: (s.count + 1) as u32,
            delay_cycles: delay_cycles_for(s.config.duration_us) as u32,
            ..s
        })
    } else if ft == FaultType::ClockGlitch {
        let s2 = lfsr_step(s1);
        (spec_bit_flip(byte, (s2 & 7) as u8), InjectorState {
            lfsr: s2,
            count: (s.count + 1) as u32,
            delay_cycles: 5,
            ..s
        })
    } else {
        (byte, InjectorState { lfsr: s1, count: (s.count + 1) as u32, delay_cycles: 0, ..s })
    }
}

/// Result byte and injector state after corrupting a byte travelling on MISO.
pub open spec fn spi_miso(s: InjectorState, byte: u8) -> (u8, InjectorState) {
    let (inject, s1) = roll(s.lfsr, s.config.probability_permille);
    let ft = s.config.fault_type;
    if !inject {
        (byte, InjectorState { lfsr: s1, delay_cycles: 0, ..s })
    } else if is_bit_fault(ft) {
        let (r, s2) = corrupt_at(ft, byte, s.config.target_bit, 8, s1);
        (r, InjectorState { lfsr: s2, count: (s.count + 1) as u32, delay_cycles: 0, ..s })
    } else {
        (byte, InjectorState { lfsr: s1, count: (s.count + 1) as u32, delay_cycles: 0, ..s })
    }
}

/// Injector state after a clock (`ClockGlitch`) or chip-select (`Timeout`)
/// check for fault type `wanted`: a delay of the configured duration when a
/// fault is due and the configured fault is `wanted`.
pub open spec fn spi_hold(s: InjectorState, wanted: FaultType) -> InjectorState {
    let (inject, s1) = roll(s.lfsr, s.config.probability_permille);
    if inject && s.config.fault_type == wanted {
        InjectorState { lfsr: s1, delay_cycles: delay_cycles_for(s.config.duration_us) as u32, ..s }
    } else {
        InjectorState { lfsr: s1, delay_cycles: 0, ..s }
    }
}

/// Whether a transfer call on state `s` keeps the fault counter in range: it
/// counts one fault whenever a fault is due.
pub open spec fn spi_count_ok(s: InjectorState) -> bool {
    roll(s.lfsr, s.config.probability_permille).0 ==> s.count < u32::MAX
}

/// Whether a call that asks for the configured delay when a `delay_type`
/// fault is due keeps the cycle count in range.
pub open spec fn spi_delay_ok(s: InjectorState, delay_type: FaultType) -> bool {
    roll(s.lfsr, s.config.probability_permille).0 && s.config.fault_type == delay_type
        ==> delay_cycles_for(s.config.duration_us) <= u32::MAX
}

/// Fault injector for SPI transfers.
pub struct SpiFaultInjector {
    config: FaultConfig,
    lfsr: Lfsr,
    injected_count: u32,
    delay_cycles: u32,
}

impl View for SpiFaultInjector {
    type V = InjectorState;

    closed spec fn view(&self) -> InjectorState {
        InjectorState {
            config: self.config,
            lfsr: self.lfsr@,
            count: self.injected_count,
            delay_cycles: self.delay_cycles,
        }
    }
}

impl SpiFaultInjector {
    pub fn new(config: FaultConfig) -> (r: SpiFaultInjector)
        ensures
            r@ == (InjectorState { config, lfsr: 0xBEEF, count: 0, delay_cycles: 0 }),
    {
        SpiFaultInjector { config, lfsr: Lfsr::new(0xBEEF), injected_count: 0, delay_cycles: 0 }
    }

    /// Corrupts a byte sent on MOSI when a fault is due; bit faults corrupt
    /// one bit, a clock glitch flips a pseudo-random bit after a short wait,
    /// a bit delay keeps the byte but asks for the configured delay.
    pub fn inject_mosi(&mut self, byte: u8) -> (r: u8)
        requires
            spi_count_ok(old(self)@),
            spi_delay_ok(old(self)@, FaultType::BitDelay),
        ensures
            (r, final(self)@) == spi_mosi(old(self)@, byte),
    {
        self.delay_cycles = 0;
        if !self.should_inject() {
            return byte;
        }
        let ft = self.config.fault_type;
        let result = match ft {
            FaultType::BitFlip | FaultType::StuckAtZero | FaultType::StuckAtOne => {
                corrupt_byte(&mut self.lfsr, ft, byte, self.config.target_bit, 8)
            },
            FaultType::BitDelay => {
                self.delay_cycles = delay_cycles(self.config.duration_us);
                byte
            },
            FaultType::ClockGlitch => {
                self.delay_cycles = 5;
                let bit = self.lfsr.next_bit();
                super::bits::bit_flip(byte, bit)
            },
            _ => byte,
        };
        self.injected_count += 1;
        result
    }

    /// Corrupts a byte received on MISO when a bit fault is due.
    pub fn inject_miso(&mut self, byte: u8) -> (r: u8)
        requires
            spi_count_ok(old(self)@),
        ensures
            (r, final(self)@) == spi_miso(old(self)@, byte),
    {
        self.delay_cycles = 0;
        if !self.should_inject() {
            return byte;
        }
        let ft = self.config.fault_type;
        let result = match ft {
            FaultType::BitFlip | FaultType::StuckAtZero | FaultType::StuckAtOne => {
                corrupt_byte(&mut self.lfsr, ft, byte, self.config.target_bit, 8)
            },
            _ => byte,
        };
        self.injected_count += 1;
        result
    }

    /// Asks for a clock stretch of the configured duration when a clock
    /// glitch is due.
    pub fn inject_clock(&mut self)
        requires
            spi_delay_ok(old(self)@, FaultType::ClockGlitch),
        ensures
            final(self)@ == spi_hold(old(self)@, FaultType::ClockGlitch),
    {
        self.delay_cycles = 0;
        if !self.should_inject() {
            return;
        }
        if self.config.fault_type == FaultType::ClockGlitch {
            self.delay_cycles = delay_cycles(self.config.duration_us);
        }
    }

    /// Asks for chip select to be held for the configured duration when a
    /// timeout fault is due.
    pub fn inject_cs_hold(&mut self)
        requires
            spi_delay_ok(old(self)@, FaultType::Timeout),
        ensures
            final(self)@ == spi_hold(old(self)@, FaultType::Timeout),
    {
        self.delay_cycles = 0;
        if !self.should_inject() {
            return;
        }
        if self.config.fault_type == FaultType::Timeout {
            self.delay_cycles = delay_cycles(self.config.duration_us);
        }
    }

    fn should_inject(&mut self) -> (r: bool)
        ensures
            (r, final(self)@.lfsr) == roll(old(self)@.lfsr, old(self)@.config.probability_permille),
            final(self)@ == (InjectorState { lfsr: final(self)@.lfsr, ..old(self)@ }),
    {
        should_inject(&mut self.lfsr, self.config.probability_permille)
    }

    pub fn injected_count(&self) -> (r: u32)
        ensures
            r == self@.count,
    {
        self.injected_count
    }

    /// Busy-wait, in CPU cycles, that the last call asked for (0 for none).
    pub fn delay_cycles(&self) -> (r: u32)
        ensures
            r == self@.delay_cycles,
    {
        self.delay_cycles
    }
}

/// With probability zero nothing is ever injected: both directions pass the
/// byte through, the counter and the register stay as they were.
pub proof fn lemma_spi_zero_probability(s: InjectorState, byte: u8)
    requires
        s.config.probability_permille == 0,
    ensures
        spi_mosi(s, byte) == (byte, InjectorState { delay_cycles: 0, ..s }),
        spi_miso(s, byte) == (byte, InjectorState { delay_cycles: 0, ..s }),
        spi_hold(s, FaultType::ClockGlitch) == (InjectorState { delay_cycles: 0, ..s }),
        spi_hold(s, FaultType::Timeout) == (InjectorState { delay_cycles: 0, ..s }),
{
}

/// With certain injection and a configured bit, a bit fault hits exactly that
/// bit of every byte, in both directions, counts one fault and leaves the
/// register alone.
pub proof fn lemma_spi_fixed_bit(s: InjectorState, byte: u8)
    requires
        s.config.probability_permille >= 1000,
        is_bit_fault(s.config.fault_type),
        s.config.target_bit < 8,
    ensures
        spi_mosi(s, byte) == (
            super::inject::corrupt(s.config.fault_type, byte, s.config.target_bit),
            InjectorState { count: (s.count + 1) as u32, delay_cycles: 0, ..s },
        ),
        spi_miso(s, byte) == spi_mosi(s, byte),
{
}

/// Transfers, stated bit by bit: nothing changes and nothing is counted when
/// no fault is due. When one is due it is counted once; a bit fault aimed at a
/// configured bit `t` below 8 inverts, clears or sets exactly bit `t` on
/// either line; a clock glitch changes exactly one bit of a MOSI byte; a bit
/// delay passes the byte and asks for 21 cycles per configured microsecond;
/// MISO bytes are only ever touched by bit faults.
pub proof fn lemma_spi_transfer_faults(s: InjectorState, byte: u8)
    ensures
        !roll(s.lfsr, s.config.probability_permille).0 ==> spi_mosi(s, byte).0 == byte && spi_mosi(s, byte).1.count
            == s.count && spi_miso(s, byte).0 == byte && spi_miso(s, byte).1.count == s.count,
        roll(s.lfsr, s.config.probability_permille).0 && s.count < u32::MAX ==> spi_mosi(s, byte).1.count
            == s.count + 1 && spi_miso(s, byte).1.count == s.count + 1,
        roll(s.lfsr, s.config.probability_permille).0 && s.config.target_bit < 8 ==> ({
            let t = s.config.target_bit;
            let ft = s.config.fault_type;
            &&& ft == FaultType::BitFlip ==> spi_mosi(s, byte).0 == byte ^ (1u8 << t) && spi_miso(s, byte).0
                == byte ^ (1u8 << t)
            &&& ft == FaultType::StuckAtZero ==> spi_mosi(s, byte).0 == byte & !(1u8 << t) && spi_miso(
                s,
                byte,
            ).0 == byte & !(1u8 << t)
            &&& ft == FaultType::StuckAtOne ==> spi_mosi(s, byte).0 == byte | (1u8 << t) && spi_miso(s, byte).0
                == byte | (1u8 << t)
        }),
        roll(s.lfsr, s.config.probability_permille).0 && s.config.fault_type == FaultType::ClockGlitch
            ==> super::bits::one_bit_apart(spi_mosi(s, byte).0, byte),
        roll(s.lfsr, s.config.probability_permille).0 && s.config.fault_type == FaultType::BitDelay
            && s.config.duration_us * 21 <= u32::MAX ==> spi_mosi(s, byte).0 == byte && spi_mosi(
            s,
            byte,
        ).1.delay_cycles == s.config.duration_us * 21,
        roll(s.lfsr, s.config.probability_permille).0 && !is_bit_fault(s.config.fault_type)
            && s.config.fault_type != FaultType::ClockGlitch ==> spi_mosi(s, byte).0 == byte,
        !is_bit_fault(s.config.fault_type) ==> spi_miso(s, byte).0 == byte,
{
    let s1 = roll(s.lfsr, s.config.probability_permille).1;
    if s.config.target_bit < 8 {
        super::inject::lemma_fault_at_target(s.config.fault_type, byte, s.config.target_bit, 8, s1);
    }
    super::bits::lemma_flip_changes_one_bit(byte, (lfsr_step(s1) & 7) as u8);
}

/// A clock or chip-select check only asks for a delay when the roll says a
/// fault is due and the configured fault is the one checked for; it counts
/// nothing.
pub proof fn lemma_spi_hold_needs_roll(s: InjectorState, wanted: FaultType)
    ensures
        spi_hold(s, wanted).delay_cycles != 0 ==> roll(s.lfsr, s.config.probability_permille).0
            && s.config.fault_type == wanted,
        spi_hold(s, wanted).count == s.count,
{
}

} // verus!
