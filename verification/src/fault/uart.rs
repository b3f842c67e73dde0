use vstd::prelude::*;

use super::bits::{bit_flip, lfsr_step, pick_bit, pick_bit_index, roll, should_inject, spec_bit_flip, Lfsr};
use super::inject::{corrupt, corrupt_byte};
use crate::shared::faults::{FaultConfig, FaultInjector, FaultResult, FaultType, Protocol};

verus! {

/// One UART transfer as seen by the injector: the byte sent and the byte received.
pub struct UartBus {
    pub tx: u8,
    pub rx: u8,
}

/// Abstract state of a UART injector.
pub struct UartInjectorState {
    pub config: FaultConfig,
    pub lfsr: u16,
    pub armed: bool,
    pub count: u32,
    pub overrun: bool,
    pub delay_cycles: u32,
}

/// Busy-wait cycles for `us` microseconds at 21 cycles per microsecond,
/// wrapping around as the UART delay does.
pub open spec fn uart_delay_cycles(us: u32) -> u32 {
    ((us as nat * 21) % 0x1_0000_0000) as u32
}

/// `s` with the register at `lfsr`, the counter moved on when `changed`, and
/// the delay request `delay`.
pub open spec fn uart_after(s: UartInjectorState, lfsr: u16, changed: bool, delay: u32) -> UartInjectorState {
    UartInjectorState {
        lfsr,
        count: if changed { (s.count + 1) as u32 } else { s.count },
        delay_cycles: delay,
        ..s
    }
}

/// Result byte and injector state after passing a transmitted byte through
/// an armed injector. The bit index is drawn before the fault type is looked
/// at; only a change of the byte counts as an injected fault.
pub open spec fn uart_tx(s: UartInjectorState, byte: u8) -> (u8, UartInjectorState) {
    if !s.armed {
        (byte, UartInjectorState { delay_cycles: 0, ..s })
    } else {
        let (inject, s1) = roll(s.lfsr, s.config.probability_permille);
        if !inject {
            (byte, UartInjectorState { lfsr: s1, delay_cycles: 0, ..s })
        } else {
            let (bit, s2) = pick_bit(s.config.target_bit, 8, s1);
            let ft = s.config.fault_type;
            let s3 = lfsr_step(s2);
            if ft == FaultType::BitFlip {
                let r = spec_bit_flip(byte, bit);
                (r, uart_after(s, s2, r != byte, 0))
            } else if ft == FaultType::ParityError {
                let r = byte ^ 0x80u8;
                (r, uart_after(s, s2, r != byte, 0))
            } else if ft == FaultType::FrameCorrupt {
                let r = spec_bit_flip(byte, (s3 & 7) as u8);
                (r, uart_after(s, s3, r != byte, 0))
            } else if ft == FaultType::BitDelay {
                (byte, uart_after(s, s2, false, uart_delay_cycles(s.config.duration_us)))
            } else if ft == FaultType::ClockGlitch {
                let r = spec_bit_flip(byte, (s3 & 7) as u8);
                (r, uart_after(s, s3, r != byte, uart_delay_cycles(3)))
            } else {
                (byte, uart_after(s, s2, false, 0))
            }
        }
    }
}

/// Result byte and injector state after passing a received byte through an
/// armed injector: bit faults corrupt one bit, other faults leave it alone.
pub open spec fn uart_rx(s: UartInjectorState, byte: u8) -> (u8, UartInjectorState) {
    if !s.armed {
        (byte, UartInjectorState { delay_cycles: 0, ..s })
    } else {
        let (inject, s1) = roll(s.lfsr, s.config.probability_permille);
        if !inject {
            (byte, UartInjectorState { lfsr: s1, delay_cycles: 0, ..s })
        } else {
            let (bit, s2) = pick_bit(s.config.target_bit, 8, s1);
            let r = corrupt(s.config.fault_type, byte, bit);
            (r, uart_after(s, s2, r != byte, 0))
        }
    }
}

/// Answer and injector state for an overrun check: an overrun is raised (and
/// counted) when the injector is armed, configured for overruns and a fault
/// is due; the register moves only when the first two hold.
pub open spec fn uart_overrun(s: UartInjectorState) -> (bool, UartInjectorState) {
    if s.armed && s.config.fault_type == FaultType::Overrun {
        let (inject, s1) = roll(s.lfsr, s.config.probability_permille);
        if inject {
            (true, UartInjectorState { lfsr: s1, overrun: true, count: (s.count + 1) as u32, ..s })
        } else {
            (false, UartInjectorState { lfsr: s1, ..s })
        }
    } else {
        (false, s)
    }
}

/// Fault injector for a UART link.
pub struct UartFaultInjector<'d> {
    config: FaultConfig,
    lfsr: Lfsr,
    armed: bool,
    count: u32,
    overrun_active: bool,
    delay_cycles: u32,
    _lifetime: core::marker::PhantomData<&'d ()>,
}

impl<'d> View for UartFaultInjector<'d> {
    type V = UartInjectorState;

    closed spec fn view(&self) -> UartInjectorState {
        UartInjectorState {
            config: self.config,
            lfsr: self.lfsr@,
            armed: self.armed,
            count: self.count,
            overrun: self.overrun_active,
            delay_cycles: self.delay_cycles,
        }
    }
}

impl<'d> UartFaultInjector<'d> {
    /// A disarmed injector configured for bit flips on UART.
    pub fn new() -> (r: UartFaultInjector<'d>)
        ensures
            r@ == (UartInjectorState {
                config: FaultConfig::new(Protocol::Uart, FaultType::BitFlip),
                lfsr: 0xDEAD,
                armed: false,
                count: 0,
                overrun: false,
                delay_cycles: 0,
            }),
    {
        UartFaultInjector {
            config: FaultConfig::new(Protocol::Uart, FaultType::BitFlip),
            lfsr: Lfsr::new(0xDEAD),
            armed: false,
            count: 0,
            overrun_active: false,
            delay_cycles: 0,
            _lifetime: core::marker::PhantomData,
        }
    }

    /// Corrupts a transmitted byte when armed and a fault is due.
    pub fn inject_tx(&mut self, byte: u8) -> (r: u8)
        requires
            uart_tx(old(self)@, byte).0 != byte ==> old(self)@.count < u32::MAX,
        ensures
            (r, final(self)@) == uart_tx(old(self)@, byte),
    {
        self.delay_cycles = 0;
        if !self.armed || !should_inject(&mut self.lfsr, self.config.probability_permille) {
            return byte;
        }
        let bit = pick_bit_index(&mut self.lfsr, self.config.target_bit, 8);
        let result = match self.config.fault_type {
            FaultType::BitFlip => bit_flip(byte, bit),
            FaultType::ParityError => byte ^ 0x80,
            FaultType::FrameCorrupt => bit_flip(byte, self.lfsr.next_bit()),
            FaultType::BitDelay => {
                self.delay_cycles = self.config.duration_us.wrapping_mul(21);
                byte
            },
            FaultType::ClockGlitch => {
                self.delay_cycles = 3u32.wrapping_mul(21);
                bit_flip(byte, self.lfsr.next_bit())
            },
            _ => byte,
        };
        if result != byte {
            self.count += 1;
        }
        result
    }

    /// Corrupts a received byte when armed and a bit fault is due.
    pub fn inject_rx(&mut self, byte: u8) -> (r: u8)
        requires
            uart_rx(old(self)@, byte).0 != byte ==> old(self)@.count < u32::MAX,
        ensures
            (r, final(self)@) == uart_rx(old(self)@, byte),
    {
        self.delay_cycles = 0;
        if !self.armed || !should_inject(&mut self.lfsr, self.config.probability_permille) {
            return byte;
        }
        let ft = self.config.fault_type;
        let result = match ft {
            FaultType::BitFlip | FaultType::StuckAtZero | FaultType::StuckAtOne => {
                corrupt_byte(&mut self.lfsr, ft, byte, self.config.target_bit, 8)
            },
            _ => {
                let _ = pick_bit_index(&mut self.lfsr, self.config.target_bit, 8);
                byte
            },
        };
        if result != byte {
            self.count += 1;
        }
        result
    }

    /// Raises a receiver overrun when armed, configured for it, and due.
    pub fn inject_overrun(&mut self) -> (r: bool)
        requires
            uart_overrun(old(self)@).0 ==> old(self)@.count < u32::MAX,
        ensures
            (r, final(self)@) == uart_overrun(old(self)@),
    {
        if self.armed && self.config.fault_type == FaultType::Overrun && should_inject(
            &mut self.lfsr,
            self.config.probability_permille,
        ) {
            self.overrun_active = true;
            self.count += 1;
            true
        } else {
            false
        }
    }

    pub fn is_overrun_active(&self) -> (r: bool)
        ensures
            r == self@.overrun,
    {
        self.overrun_active
    }

    /// Clears the overrun flag and changes nothing else.
    pub fn clear_overrun(&mut self)
        ensures
            final(self)@ == (UartInjectorState { overrun: false, ..old(self)@ }),
    {
        self.overrun_active = false;
    }

    /// Busy-wait, in CPU cycles, that the last byte call asked for (0 for none).
    pub fn delay_cycles(&self) -> (r: u32)
        ensures
            r == self@.delay_cycles,
    {
        self.delay_cycles
    }
}

impl<'d> FaultInjector<'d, UartBus> for UartFaultInjector<'d> {
    type Error = ();

    open spec fn can_fire(&self) -> bool {
        self@.armed ==> self@.count < u32::MAX
    }

    /// Replaces the configuration; never fails.
    fn configure(&mut self, config: &FaultConfig) -> (r: Result<(), ()>)
        ensures
            r is Ok,
            final(self)@ == (UartInjectorState { config: *config, ..old(self)@ }),
    {
        self.config = *config;
        Ok(())
    }

    /// Arms the injector and zeroes its counter; never fails.
    fn arm(&mut self) -> (r: Result<(), ()>)
        ensures
            r is Ok,
            final(self)@ == (UartInjectorState { armed: true, count: 0, ..old(self)@ }),
    {
        self.armed = true;
        self.count = 0;
        Ok(())
    }

    /// Disarms the injector and clears any overrun; never fails.
    fn disarm(&mut self) -> (r: Result<(), ()>)
        ensures
            r is Ok,
            final(self)@ == (UartInjectorState { armed: false, overrun: false, ..old(self)@ }),
    {
        self.armed = false;
        self.overrun_active = false;
        Ok(())
    }

    /// Passes the transmitted byte of `bus` through the injector and, when
    /// configured for overruns, checks for one. Fails, changing nothing, when
    /// the injector is not armed.
    fn fire(&mut self, bus: &mut UartBus) -> (r: Result<FaultResult, ()>)
        ensures
            !old(self)@.armed ==> r is Err && final(self)@ == old(self)@ && *final(bus) == *old(bus),
            old(self)@.armed ==> {
                let (tx, s1) = uart_tx(old(self)@, old(bus).tx);
                &&& r == Ok::<FaultResult, ()>(FaultResult::Fired)
                &&& final(bus).tx == tx
                &&& final(bus).rx == old(bus).rx
                &&& final(self)@ == if old(self)@.config.fault_type == FaultType::Overrun {
                    uart_overrun(s1).1
                } else {
                    s1
                }
            },
    {
        if !self.armed {
            return Err(());
        }
        bus.tx = self.inject_tx(bus.tx);
        if self.config.fault_type == FaultType::Overrun {
            self.inject_overrun();
        }
        Ok(FaultResult::Fired)
    }

    fn is_armed(&self) -> (r: bool)
        ensures
            r == self@.armed,
    {
        self.armed
    }

    fn injected_count(&self) -> (r: u32)
        ensures
            r == self@.count,
    {
        self.count
    }

    /// Zeroes the fault counter and changes nothing else.
    fn reset_stats(&mut self)
        ensures
            final(self)@ == (UartInjectorState { count: 0, ..old(self)@ }),
    {
        self.count = 0;
    }
}

/// A disarmed injector passes every byte through untouched and changes
/// nothing but the (cleared) delay request.
pub proof fn lemma_uart_disarmed_passes(s: UartInjectorState, byte: u8)
    requires
        !s.armed,
    ensures
        uart_tx(s, byte) == (byte, UartInjectorState { delay_cycles: 0, ..s }),
        uart_rx(s, byte) == (byte, UartInjectorState { delay_cycles: 0, ..s }),
        uart_overrun(s) == (false, s),
{
}

/// The counter moves on by one exactly when a byte is changed (modulo 2^32,
/// which a caller never reaches since a full counter is refused).
pub proof fn lemma_uart_counts_changes(s: UartInjectorState, byte: u8)
    ensures
        uart_tx(s, byte).0 != byte && s.count < u32::MAX ==> uart_tx(s, byte).1.count == s.count + 1,
        uart_tx(s, byte).0 == byte ==> uart_tx(s, byte).1.count == s.count,
        uart_rx(s, byte).0 != byte && s.count < u32::MAX ==> uart_rx(s, byte).1.count == s.count + 1,
        uart_rx(s, byte).0 == byte ==> uart_rx(s, byte).1.count == s.count,
{
}

/// Transmitted bytes: a disarmed injector, or one with no fault due, passes
/// the byte and counts nothing. An armed injector with a fault due: a bit
/// flip aimed at a configured bit `t` below 8 inverts exactly bit `t`; a
/// parity error inverts bit 7; a frame corruption or a clock glitch changes
/// exactly one bit and counts it; a bit delay passes the byte; every change
/// is counted once.
pub proof fn lemma_uart_tx_faults(s: UartInjectorState, byte: u8)
    ensures
        !s.armed || !roll(s.lfsr, s.config.probability_permille).0 ==> uart_tx(s, byte).0 == byte
            && uart_tx(s, byte).1.count == s.count,
        s.armed && roll(s.lfsr, s.config.probability_permille).0 ==> ({
            let ft = s.config.fault_type;
            let r = uart_tx(s, byte).0;
            &&& ft == FaultType::BitFlip && s.config.target_bit < 8 ==> r == byte ^ (1u8 << s.config.target_bit)
            &&& ft == FaultType::ParityError ==> r == byte ^ 0x80u8
            &&& ft == FaultType::FrameCorrupt || ft == FaultType::ClockGlitch ==> super::bits::one_bit_apart(
                r,
                byte,
            ) && (s.count < u32::MAX ==> uart_tx(s, byte).1.count == s.count + 1)
            &&& ft == FaultType::BitDelay ==> r == byte
            &&& ft != FaultType::BitFlip && ft != FaultType::ParityError && ft != FaultType::FrameCorrupt && ft
                != FaultType::ClockGlitch ==> r == byte
        }),
        uart_tx(s, byte).0 != byte && s.count < u32::MAX ==> uart_tx(s, byte).1.count == s.count + 1,
        uart_tx(s, byte).1.config == s.config && uart_tx(s, byte).1.armed == s.armed,
{
    let s1 = roll(s.lfsr, s.config.probability_permille).1;
    let s2 = pick_bit(s.config.target_bit, 8, s1).1;
    if s.config.target_bit < 8 {
        super::bits::lemma_small_bit(s.config.target_bit);
    }
    super::bits::lemma_flip_changes_one_bit(byte, (lfsr_step(s2) & 7) as u8);
}

/// Received bytes: a disarmed injector, or one with no fault due, passes the
/// byte and counts nothing; with a fault due, a bit fault aimed at a
/// configured bit `t` below 8 inverts, clears or sets exactly bit `t`, and
/// any other fault type passes the byte.
pub proof fn lemma_uart_rx_faults(s: UartInjectorState, byte: u8)
    ensures
        !s.armed || !roll(s.lfsr, s.config.probability_permille).0 ==> uart_rx(s, byte).0 == byte
            && uart_rx(s, byte).1.count == s.count,
        s.armed && roll(s.lfsr, s.config.probability_permille).0 ==> ({
            let ft = s.config.fault_type;
            let t = s.config.target_bit;
            let r = uart_rx(s, byte).0;
            &&& ft == FaultType::BitFlip && t < 8 ==> r == byte ^ (1u8 << t)
            &&& ft == FaultType::StuckAtZero && t < 8 ==> r == byte & !(1u8 << t)
            &&& ft == FaultType::StuckAtOne && t < 8 ==> r == byte | (1u8 << t)
            &&& !super::inject::is_bit_fault(ft) ==> r == byte
        }),
{
    let s1 = roll(s.lfsr, s.config.probability_permille).1;
    if s.config.target_bit < 8 {
        super::inject::lemma_fault_at_target(s.config.fault_type, byte, s.config.target_bit, 8, s1);
    }
}

/// An overrun is raised exactly when the injector is armed, configured for
/// overruns and the roll says a fault is due; raising one sets the overrun
/// flag and counts it, and no other check changes the counter.
pub proof fn lemma_uart_overrun_needs_roll(s: UartInjectorState)
    ensures
        uart_overrun(s).0 <==> s.armed && s.config.fault_type == FaultType::Overrun && roll(
            s.lfsr,
            s.config.probability_permille,
        ).0,
        uart_overrun(s).0 ==> uart_overrun(s).1.overrun && (s.count < u32::MAX ==> uart_overrun(s).1.count
            == s.count + 1),
        !uart_overrun(s).0 ==> uart_overrun(s).1.count == s.count && uart_overrun(s).1.overrun == s.overrun,
{
}

} // verus!
