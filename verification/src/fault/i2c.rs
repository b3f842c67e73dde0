use vstd::prelude::*;

use super::bits::{roll, should_inject, Lfsr};
use super::inject::{corrupt_at, corrupt_byte, delay_cycles, delay_cycles_for, is_bit_fault, InjectorState};
use crate::shared::faults::{FaultConfig, FaultType};

verus! {

/// Result and injector state after corrupting a byte with bit faults at a bit
/// below `limit`: 7 for the address, 8 for data.
pub open spec fn i2c_corrupt(s: InjectorState, byte: u8, limit: u8) -> (u8, InjectorState) {
    let (inject, s1) = roll(s.lfsr, s.config.probability_permille);
    let ft = s.config.fault_type;
    if !inject {
        (byte, InjectorState { lfsr: s1, delay_cycles: 0, ..s })
    } else if is_bit_fault(ft) {
        let (r, s2) = corrupt_at(ft, byte, s.config.target_bit, limit, s1);
        (r, InjectorState { lfsr: s2, count: (s.count + 1) as u32, delay_cycles: 0, ..s })
    } else {
        (byte, InjectorState { lfsr: s1, count: (s.count + 1) as u32, delay_cycles: 0, ..s })
    }
}

/// Answer and injector state for a check whether a fault of type `wanted`
/// is due (NACK, bus lockup): true when one is due and it is the configured
/// fault.
pub open spec fn i2c_check(s: InjectorState, wanted: FaultType) -> (bool, InjectorState) {
    let (inject, s1) = roll(s.lfsr, s.config.probability_permille);
    (inject && s.config.fault_type == wanted, InjectorState { lfsr: s1, delay_cycles: 0, ..s })
}

/// Injector state after a line-hold check for fault type `wanted`: the
/// register only moves when `wanted` is the configured fault, and a delay of
/// the configured duration is asked for when that fault is due.
pub open spec fn i2c_hold(s: InjectorState, wanted: FaultType) -> InjectorState {
    if s.config.fault_type != wanted {
        InjectorState { delay_cycles: 0, ..s }
    } else {
        let (inject, s1) = roll(s.lfsr, s.config.probability_permille);
        InjectorState {
            lfsr: s1,
            delay_cycles: if inject { delay_cycles_for(s.config.duration_us) as u32 } else { 0 },
            ..s
        }
    }
}

/// Whether a line-hold check for `wanted` keeps the cycle count in range.
pub open spec fn i2c_hold_ok(s: InjectorState, wanted: FaultType) -> bool {
    s.config.fault_type == wanted && roll(s.lfsr, s.config.probability_permille).0
        ==> delay_cycles_for(s.config.duration_us) <= u32::MAX
}

/// Whether an address or data call keeps the fault counter in range.
pub open spec fn i2c_count_ok(s: InjectorState) -> bool {
    roll(s.lfsr, s.config.probability_permille).0 ==> s.count < u32::MAX
}

/// Fault injector for I2C transactions.
pub struct I2cFaultInjector {
    config: FaultConfig,
    lfsr: Lfsr,
    injected_count: u32,
    delay_cycles: u32,
}

impl View for I2cFaultInjector {
    type V = InjectorState;

    closed spec fn view(&self) -> InjectorState {
        InjectorState {
            config: self.config,
            lfsr: self.lfsr@,
            count: self.injected_count,
            delay_cycles: self.delay_cycles,
        }
    }
}

impl I2cFaultInjector {
    pub fn new(config: FaultConfig) -> (r: I2cFaultInjector)
        ensures
            r@ == (InjectorState { config, lfsr: 0xCAFE, count: 0, delay_cycles: 0 }),
    {
        I2cFaultInjector { config, lfsr: Lfsr::new(0xCAFE), injected_count: 0, delay_cycles: 0 }
    }

    /// Corrupts one of the seven address bits when a bit fault is due; the
    /// read/write flag passes unchanged.
    pub fn inject_address(&mut self, addr: u8, read: bool) -> (r: (u8, bool))
        requires
            i2c_count_ok(old(self)@),
        ensures
            (r.0, final(self)@) == i2c_corrupt(old(self)@, addr, 7),
            r.1 == read,
    {
        self.delay_cycles = 0;
        if !self.should_inject() {
            return (addr, read);
        }
        let ft = self.config.fault_type;
        let result_addr = match ft {
            FaultType::BitFlip | FaultType::StuckAtZero | FaultType::StuckAtOne => {
                corrupt_byte(&mut self.lfsr, ft, addr, self.config.target_bit, 7)
            },
            _ => addr,
        };
        self.injected_count += 1;
        (result_addr, read)
    }

    /// Corrupts a data byte when a bit fault is due.
    pub fn inject_data(&mut self, byte: u8) -> (r: u8)
        requires
            i2c_count_ok(old(self)@),
        ensures
            (r, final(self)@) == i2c_corrupt(old(self)@, byte, 8),
    {
        self.delay_cycles = 0;
        if !self.should_inject() {
            return byte;
        }
        let ft = self.config.fault_type;
        let result = match ft {
            FaultType::BitFlip | FaultType::StuckAtZero | FaultType::StuckAtOne => {
                corrupt_byte(&mut self.lfsr, ft, byte, self.config.target_bit, 8)
            },
            _ => byte,
        };
        self.injected_count += 1;
        result
    }

    /// Whether the next acknowledge should be turned into a NACK.
    pub fn should_nack(&mut self) -> (r: bool)
        ensures
            (r, final(self)@) == i2c_check(old(self)@, FaultType::NackInjection),
    {
        self.delay_cycles = 0;
        if !self.should_inject() {
            return false;
        }
        self.config.fault_type == FaultType::NackInjection
    }

    /// Whether the bus should be locked up now.
    pub fn should_lock_bus(&mut self) -> (r: bool)
        ensures
            (r, final(self)@) == i2c_check(old(self)@, FaultType::BusLockup),
    {
        self.delay_cycles = 0;
        if !self.should_inject() {
            return false;
        }
        self.config.fault_type == FaultType::BusLockup
    }

    /// Asks for SCL to be held low for the configured duration when a bus
    /// lockup is configured and due.
    pub fn inject_scl_hold(&mut self)
        requires
            i2c_hold_ok(old(self)@, FaultType::BusLockup),
        ensures
            final(self)@ == i2c_hold(old(self)@, FaultType::BusLockup),
    {
        self.delay_cycles = 0;
        if self.config.fault_type == FaultType::BusLockup && self.should_inject() {
            self.delay_cycles = delay_cycles(self.config.duration_us);
        }
    }

    /// Asks for SDA to be delayed for the configured duration when a bit
    /// delay is configured and due.
    pub fn inject_sda_delay(&mut self)
        requires
            i2c_hold_ok(old(self)@, FaultType::BitDelay),
        ensures
            final(self)@ == i2c_hold(old(self)@, FaultType::BitDelay),
    {
        self.delay_cycles = 0;
        if self.config.fault_type == FaultType::BitDelay && self.should_inject() {
            self.delay_cycles = delay_cycles(self.config.duration_us);
        }
    }

    fn should_inject(&mut self) -> (r: bool)
        ensures
            (r, final(self)@.lfsr) == roll(old(self)@.lfsr, old(self)@.config.probability_permille),
            final(self)@ == (InjectorState { lfsr: final(self)@.lfsr, ..old(self)@ }),
    {
        should_inject(&mut self.lfsr, self.config.probability_permille)
    }

    pub fn injected_count(&self) -> (r: u32)
        ensures
            r == self@.count,
    {
        self.injected_count
    }

    /// Busy-wait, in CPU cycles, that the last call asked for (0 for none).
    pub fn delay_cycles(&self) -> (r: u32)
        ensures
            r == self@.delay_cycles,
    {
        self.delay_cycles
    }
}

/// Address faults only touch the seven address bits: bit 7 of the byte is
/// never changed.
pub proof fn lemma_i2c_address_bit7_kept(s: InjectorState, addr: u8)
    ensures
        super::bits::bit_of(i2c_corrupt(s, addr, 7).0, 7) == super::bits::bit_of(addr, 7),
{
    let s1 = roll(s.lfsr, s.config.probability_permille).1;
    let bit = super::bits::pick_bit(s.config.target_bit, 7, s1).0;
    super::bits::lemma_pick_bit(s.config.target_bit, 7, s1);
    assert(bit < 7 ==> bit & 7 == bit) by (bit_vector);
    super::bits::lemma_bit_flip(addr, bit);
    super::bits::lemma_bit_set(addr, bit);
    super::bits::lemma_bit_clear(addr, bit);
}

/// A NACK or a bus lockup is only reported for its own fault type.
pub proof fn lemma_i2c_checks_match_type(s: InjectorState)
    ensures
        i2c_check(s, FaultType::NackInjection).0 ==> s.config.fault_type == FaultType::NackInjection,
        i2c_check(s, FaultType::BusLockup).0 ==> s.config.fault_type == FaultType::BusLockup,
        s.config.probability_permille >= 1000 ==> i2c_check(s, s.config.fault_type).0,
{
}

/// A NACK or bus-lockup check answers true exactly when the probability roll
/// says a fault is due and the configured fault is the one asked about; it
/// counts nothing and keeps the configuration. With probability zero it
/// answers false and leaves the register as it was.
pub proof fn lemma_i2c_check_needs_roll(s: InjectorState, wanted: FaultType)
    ensures
        i2c_check(s, wanted).0 ==> roll(s.lfsr, s.config.probability_permille).0,
        i2c_check(s, wanted).0 ==> s.config.fault_type == wanted,
        roll(s.lfsr, s.config.probability_permille).0 && s.config.fault_type == wanted ==> i2c_check(s, wanted).0,
        i2c_check(s, wanted).1.count == s.count,
        i2c_check(s, wanted).1.config == s.config,
        i2c_check(s, wanted).1.delay_cycles == 0,
        s.config.probability_permille == 0 ==> !i2c_check(s, wanted).0 && i2c_check(s, wanted).1.lfsr == s.lfsr,
{
}

/// A line-hold check only asks for a delay when the roll says a fault is due
/// and the configured fault is the one held for; the delay is then 21 cycles
/// per configured microsecond.
pub proof fn lemma_i2c_hold_needs_roll(s: InjectorState, wanted: FaultType)
    requires
        s.config.duration_us * 21 <= u32::MAX,
    ensures
        i2c_hold(s, wanted).delay_cycles != 0 ==> roll(s.lfsr, s.config.probability_permille).0
            && s.config.fault_type == wanted,
        roll(s.lfsr, s.config.probability_permille).0 && s.config.fault_type == wanted ==> i2c_hold(
            s,
            wanted,
        ).delay_cycles == s.config.duration_us * 21,
        i2c_hold(s, wanted).count == s.count,
{
}

/// Address and data bytes: nothing changes and nothing is counted when no
/// fault is due. When one is due it is counted once, and a bit fault aimed
/// at a configured bit `t` (below 8 for data, below 7 for an address)
/// inverts, clears or sets exactly bit `t`; any other fault type passes the
/// byte through.
pub proof fn lemma_i2c_byte_faults(s: InjectorState, byte: u8)
    ensures
        !roll(s.lfsr, s.config.probability_permille).0 ==> i2c_corrupt(s, byte, 8).0 == byte
            && i2c_corrupt(s, byte, 8).1.count == s.count && i2c_corrupt(s, byte, 7).0 == byte
            && i2c_corrupt(s, byte, 7).1.count == s.count,
        roll(s.lfsr, s.config.probability_permille).0 && s.count < u32::MAX ==> i2c_corrupt(s, byte, 8).1.count
            == s.count + 1 && i2c_corrupt(s, byte, 7).1.count == s.count + 1,
        roll(s.lfsr, s.config.probability_permille).0 && !is_bit_fault(s.config.fault_type) ==> i2c_corrupt(
            s,
            byte,
            8,
        ).0 == byte && i2c_corrupt(s, byte, 7).0 == byte,
        roll(s.lfsr, s.config.probability_permille).0 && s.config.target_bit < 8 ==> ({
            let t = s.config.target_bit;
            let r = i2c_corrupt(s, byte, 8).0;
            &&& s.config.fault_type == FaultType::BitFlip ==> r == byte ^ (1u8 << t)
            &&& s.config.fault_type == FaultType::StuckAtZero ==> r == byte & !(1u8 << t)
            &&& s.config.fault_type == FaultType::StuckAtOne ==> r == byte | (1u8 << t)
        }),
        roll(s.lfsr, s.config.probability_permille).0 && s.config.target_bit < 7 ==> ({
            let t = s.config.target_bit;
            let r = i2c_corrupt(s, byte, 7).0;
            &&& s.config.fault_type == FaultType::BitFlip ==> r == byte ^ (1u8 << t)
            &&& s.config.fault_type == FaultType::StuckAtZero ==> r == byte & !(1u8 << t)
            &&& s.config.fault_type == FaultType::StuckAtOne ==> r == byte | (1u8 << t)
        }),
{
    let s1 = roll(s.lfsr, s.config.probability_permille).1;
    let t = s.config.target_bit;
    if t < 8 {
        super::inject::lemma_fault_at_target(s.config.fault_type, byte, t, 8, s1);
    }
    if t < 7 {
        super::inject::lemma_fault_at_target(s.config.fault_type, byte, t, 7, s1);
    }
}

} // verus!
