use vstd::prelude::*;

use super::bits::{bit_flip, lfsr_step, pick_bit, pick_bit_index, roll, should_inject, spec_bit_flip, Lfsr};
use crate::shared::faults::{FaultConfig, FaultInjector, FaultResult, FaultType, Protocol};

verus! {

/// One CAN frame as seen by the injector.
pub struct CanBus {
    pub id: u32,
    pub data: [u8; 8],
    pub dlc: u8,
}

/// Abstract state of a CAN injector.
pub struct CanInjectorState {
    pub config: FaultConfig,
    pub lfsr: u16,
    pub armed: bool,
    pub count: u32,
}

/// `s` with the register at `lfsr` and the counter moved on when `changed`.
pub open spec fn can_after(s: CanInjectorState, lfsr: u16, changed: bool) -> CanInjectorState {
    CanInjectorState { lfsr, count: if changed { (s.count + 1) as u32 } else { s.count }, ..s }
}

/// `id` with bit `bit` corrupted as `ft` says.
pub open spec fn corrupt_id(ft: FaultType, id: u32, bit: u8) -> u32 {
    if ft == FaultType::BitFlip {
        id ^ (1u32 << bit)
    } else if ft == FaultType::StuckAtZero {
        id & !(1u32 << bit)
    } else if ft == FaultType::StuckAtOne {
        id | (1u32 << bit)
    } else {
        id
    }
}

/// Identifier and injector state after passing a frame identifier through an
/// armed injector: bit faults corrupt one of the 29 identifier bits; the bit
/// index is drawn before the fault type is looked at; only a change counts.
pub open spec fn can_id(s: CanInjectorState, id: u32) -> (u32, CanInjectorState) {
    if !s.armed {
        (id, s)
    } else {
        let (inject, s1) = roll(s.lfsr, s.config.probability_permille);
        if !inject {
            (id, CanInjectorState { lfsr: s1, ..s })
        } else {
            let (bit, s2) = pick_bit(s.config.target_bit, 29, s1);
            let r = corrupt_id(s.config.fault_type, id, bit);
            (r, can_after(s, s2, r != id))
        }
    }
}

/// Byte and injector state after passing data byte number `index` through an
/// armed injector: a bit flip flips the configured (or a pseudo-random) bit, a
/// frame fault flips a pseudo-random bit, a CRC fault flips a pseudo-random
/// bit of the bytes from index 4 on; only a change counts.
pub open spec fn can_data(s: CanInjectorState, byte: u8, index: usize) -> (u8, CanInjectorState) {
    if !s.armed {
        (byte, s)
    } else {
        let (inject, s1) = roll(s.lfsr, s.config.probability_permille);
        let ft = s.config.fault_type;
        if !inject {
            (byte, CanInjectorState { lfsr: s1, ..s })
        } else if ft == FaultType::BitFlip {
            let (bit, s2) = pick_bit(s.config.target_bit, 8, s1);
            let r = spec_bit_flip(byte, bit);
            (r, can_after(s, s2, r != byte))
        } else if (ft == FaultType::CrcCorrupt && index >= 4) || ft == FaultType::FrameCorrupt {
            let s2 = lfsr_step(s1);
            let r = spec_bit_flip(byte, (s2 & 7) as u8);
            (r, can_after(s, s2, r != byte))
        } else {
            (byte, CanInjectorState { lfsr: s1, ..s })
        }
    }
}

/// Data bytes and injector state after passing the first `n` bytes of `data`
/// through the injector, in order.
pub open spec fn can_data_run(s: CanInjectorState, data: Seq<u8>, n: nat) -> (Seq<u8>, CanInjectorState)
    decreases n,
{
    if n == 0 {
        (data, s)
    } else {
        let (d, s1) = can_data_run(s, data, (n - 1) as nat);
        let (b, s2) = can_data(s1, d[n - 1], (n - 1) as usize);
        (d.update(n - 1, b), s2)
    }
}


/// A pass over the frame moves the counter on by at most one per byte.
proof fn lemma_can_data_run_count(s: CanInjectorState, data: Seq<u8>, n: nat)
    requires
        n <= data.len(),
    ensures
        can_data_run(s, data, n).1.count <= s.count + n,
        can_data_run(s, data, n).0.len() == data.len(),
        can_data_run(s, data, n).1.armed == s.armed,
        can_data_run(s, data, n).1.config == s.config,
    decreases n,
{
    if n > 0 {
        lemma_can_data_run_count(s, data, (n - 1) as nat);
    }
}

/// Fault injector for CAN frames.
pub struct CanFaultInjector<'d> {
    config: FaultConfig,
    lfsr: Lfsr,
    armed: bool,
    count: u32,
    _lifetime: core::marker::PhantomData<&'d ()>,
}

impl<'d> View for CanFaultInjector<'d> {
    type V = CanInjectorState;

    closed spec fn view(&self) -> CanInjectorState {
        CanInjectorState { config: self.config, lfsr: self.lfsr@, armed: self.armed, count: self.count }
    }
}

/// The ten low bits of the first state of a register seeded with zero are zero.
proof fn lemma_fresh_register_roll(p: u16)
    ensures
        roll(1, p).0 == (p != 0),
{
    assert(((1u16 >> 1u16) | ((((1u16 >> 0u16) ^ (1u16 >> 2u16) ^ (1u16 >> 3u16) ^ (1u16 >> 5u16)) & 1u16) << 15u16)) & 0x03FFu16 == 0u16) by (bit_vector);
}

impl<'d> CanFaultInjector<'d> {
    /// A disarmed injector configured for bit flips on CAN.
    pub fn new() -> (r: CanFaultInjector<'d>)
        ensures
            r@ == (CanInjectorState {
                config: FaultConfig::new(Protocol::Can, FaultType::BitFlip),
                lfsr: 0x1234,
                armed: false,
                count: 0,
            }),
    {
        CanFaultInjector {
            config: FaultConfig::new(Protocol::Can, FaultType::BitFlip),
            lfsr: Lfsr::new(0x1234),
            armed: false,
            count: 0,
            _lifetime: core::marker::PhantomData,
        }
    }

    /// Corrupts a frame identifier when armed and a bit fault is due.
    pub fn inject_id(&mut self, id: u32) -> (r: u32)
        requires
            can_id(old(self)@, id).0 != id ==> old(self)@.count < u32::MAX,
        ensures
            (r, final(self)@) == can_id(old(self)@, id),
    {
        if !self.armed || !should_inject(&mut self.lfsr, self.config.probability_permille) {
            return id;
        }
        let bit = pick_bit_index(&mut self.lfsr, self.config.target_bit, 29);
        let result = match self.config.fault_type {
            FaultType::BitFlip => id ^ (1u32 << bit),
            FaultType::StuckAtZero => id & !(1u32 << bit),
            FaultType::StuckAtOne => id | (1u32 << bit),
            _ => id,
        };
        if result != id {
            self.count += 1;
        }
        result
    }

    /// Corrupts data byte number `index` of a frame when armed and a fault is due.
    pub fn inject_data(&mut self, byte: u8, index: usize) -> (r: u8)
        requires
            can_data(old(self)@, byte, index).0 != byte ==> old(self)@.count < u32::MAX,
        ensures
            (r, final(self)@) == can_data(old(self)@, byte, index),
    {
        if !self.armed || !should_inject(&mut self.lfsr, self.config.probability_permille) {
            return byte;
        }
        let ft = self.config.fault_type;
        let result = if ft == FaultType::BitFlip {
            let bit = pick_bit_index(&mut self.lfsr, self.config.target_bit, 8);
            bit_flip(byte, bit)
        } else if (ft == FaultType::CrcCorrupt && index >= 4) || ft == FaultType::FrameCorrupt {
            bit_flip(byte, self.lfsr.next_bit())
        } else {
            byte
        };
        if result != byte {
            self.count += 1;
        }
        result
    }

    /// Whether a bit-stuffing error should be raised: armed, configured for
    /// clock glitches, and a fault is due on a register seeded with zero
    /// (which happens exactly when the probability is not zero).
    pub fn inject_stuff_error(&self) -> (r: bool)
        ensures
            r == (self@.armed && self@.config.fault_type == FaultType::ClockGlitch
                && roll(1, self@.config.probability_permille).0),
            r == (self@.armed && self@.config.fault_type == FaultType::ClockGlitch
                && self@.config.probability_permille != 0),
    {
        proof {
            lemma_fresh_register_roll(self.config.probability_permille);
        }
        self.armed && self.config.fault_type == FaultType::ClockGlitch && should_inject(
            &mut Lfsr::new(0),
            self.config.probability_permille,
        )
    }

    /// Whether a form error should be raised: armed, configured for frame
    /// corruption, and a fault is due on a register seeded with zero (which
    /// happens exactly when the probability is not zero).
    pub fn inject_form_error(&self) -> (r: bool)
        ensures
            r == (self@.armed && self@.config.fault_type == FaultType::FrameCorrupt
                && roll(1, self@.config.probability_permille).0),
            r == (self@.armed && self@.config.fault_type == FaultType::FrameCorrupt
                && self@.config.probability_permille != 0),
    {
        proof {
            lemma_fresh_register_roll(self.config.probability_permille);
        }
        self.armed && self.config.fault_type == FaultType::FrameCorrupt && should_inject(
            &mut Lfsr::new(0),
            self.config.probability_permille,
        )
    }
}

impl<'d> FaultInjector<'d, CanBus> for CanFaultInjector<'d> {
    type Error = ();

    open spec fn can_fire(&self) -> bool {
        self@.armed ==> self@.count <= u32::MAX - 9
    }

    /// Replaces the configuration; never fails.
    fn configure(&mut self, config: &FaultConfig) -> (r: Result<(), ()>)
        ensures
            r is Ok,
            final(self)@ == (CanInjectorState { config: *config, ..old(self)@ }),
    {
        self.config = *config;
        Ok(())
    }

    /// Arms the injector and zeroes its counter; never fails.
    fn arm(&mut self) -> (r: Result<(), ()>)
        ensures
            r is Ok,
            final(self)@ == (CanInjectorState { armed: true, count: 0, ..old(self)@ }),
    {
        self.armed = true;
        self.count = 0;
        Ok(())
    }

    /// Disarms the injector; never fails.
    fn disarm(&mut self) -> (r: Result<(), ()>)
        ensures
            r is Ok,
            final(self)@ == (CanInjectorState { armed: false, ..old(self)@ }),
    {
        self.armed = false;
        Ok(())
    }

    /// Passes the identifier, then the eight data bytes in order, through
    /// the injector. Fails, changing nothing, when the injector is not armed.
    fn fire(&mut self, bus: &mut CanBus) -> (r: Result<FaultResult, ()>)
        ensures
            !old(self)@.armed ==> r is Err && final(self)@ == old(self)@ && *final(bus) == *old(bus),
            old(self)@.armed ==> {
                let (id, s1) = can_id(old(self)@, old(bus).id);
                let (data, s2) = can_data_run(s1, old(bus).data@, 8);
                &&& r == Ok::<FaultResult, ()>(FaultResult::Fired)
                &&& final(bus).id == id
                &&& final(bus).data@ == data
                &&& final(bus).dlc == old(bus).dlc
                &&& final(self)@ == s2
            },
    {
        if !self.armed {
            return Err(());
        }
        bus.id = self.inject_id(bus.id);
        let ghost s1 = self@;
        let ghost data0 = bus.data@;
        let mut i: usize = 0;
        while i < 8
            invariant
                0 <= i <= 8,
                s1.count <= old(self)@.count + 1,
                old(self)@.count <= u32::MAX - 9,
                s1.armed,
                data0.len() == 8,
                bus.data@.len() == 8,
                (bus.data@, self@) == can_data_run(s1, data0, i as nat),
                bus.id == can_id(old(self)@, old(bus).id).0,
                bus.dlc == old(bus).dlc,
            decreases 8 - i,
        {
            proof {
                lemma_can_data_run_count(s1, data0, i as nat);
            }
            let b = bus.data[i];
            let nb = self.inject_data(b, i);
            bus.data[i] = nb;
            i += 1;
        }
        assert(data0 == old(bus).data@);
        assert(s1 == can_id(old(self)@, old(bus).id).1);
        Ok(FaultResult::Fired)
    }

    fn is_armed(&self) -> (r: bool)
        ensures
            r == self@.armed,
    {
        self.armed
    }

    fn injected_count(&self) -> (r: u32)
        ensures
            r == self@.count,
    {
        self.count
    }

    /// Zeroes the fault counter and changes nothing else.
    fn reset_stats(&mut self)
        ensures
            final(self)@ == (CanInjectorState { count: 0, ..old(self)@ }),
    {
        self.count = 0;
    }
}

/// A CRC fault never touches the first four data bytes, and always changes a
/// byte from index 4 on when the injector is armed and a fault is due.
pub proof fn lemma_can_crc_only_from_index_4(s: CanInjectorState, byte: u8, index: usize)
    requires
        s.config.fault_type == FaultType::CrcCorrupt,
    ensures
        index < 4 ==> can_data(s, byte, index).0 == byte && can_data(s, byte, index).1.count == s.count,
        index >= 4 && s.armed && roll(s.lfsr, s.config.probability_permille).0 ==> can_data(s, byte, index).0
            != byte,
{
    let s1 = roll(s.lfsr, s.config.probability_permille).1;
    super::bits::lemma_bit_flip(byte, (lfsr_step(s1) & 7) as u8);
}

/// Identifier faults only touch the 29 bits of an extended identifier: the
/// three top bits are never changed.
pub proof fn lemma_can_id_top_bits_kept(s: CanInjectorState, id: u32)
    ensures
        can_id(s, id).0 >> 29u32 == id >> 29u32,
{
    let s1 = roll(s.lfsr, s.config.probability_permille).1;
    let bit = pick_bit(s.config.target_bit, 29, s1).0;
    super::bits::lemma_pick_bit(s.config.target_bit, 29, s1);
    assert(bit < 29 ==> (id ^ (1u32 << bit)) >> 29u32 == id >> 29u32) by (bit_vector);
    assert(bit < 29 ==> (id & !(1u32 << bit)) >> 29u32 == id >> 29u32) by (bit_vector);
    assert(bit < 29 ==> (id | (1u32 << bit)) >> 29u32 == id >> 29u32) by (bit_vector);
}

/// An armed injector with certain injection and a configured bit below 29
/// corrupts exactly that identifier bit as the fault type says (other types
/// leave the identifier alone), and counts the fault exactly when the
/// identifier changed.
pub proof fn lemma_can_id_fixed_bit(s: CanInjectorState, id: u32)
    requires
        s.armed,
        s.config.probability_permille >= 1000,
        s.config.target_bit < 29,
    ensures
        can_id(s, id).0 == corrupt_id(s.config.fault_type, id, s.config.target_bit),
        can_id(s, id).1.lfsr == s.lfsr,
        can_id(s, id).0 != id ==> can_id(s, id).1.count == (s.count + 1) as u32,
        can_id(s, id).0 == id ==> can_id(s, id).1.count == s.count,
{
}

/// Identifiers, stated bit by bit: a disarmed injector, or one with no fault
/// due, passes the identifier and counts nothing. Armed with a fault due and
/// a configured bit `t` below 29, a flip inverts bit `t`, stuck at zero
/// clears it and stuck at one sets it, every other bit being kept (so an
/// identifier already stuck as asked comes back unchanged); other fault
/// types pass the identifier. A fault is counted exactly when the identifier
/// changed.
pub proof fn lemma_can_id_faults(s: CanInjectorState, id: u32)
    ensures
        !s.armed || !roll(s.lfsr, s.config.probability_permille).0 ==> can_id(s, id).0 == id && can_id(
            s,
            id,
        ).1.count == s.count,
        s.armed && roll(s.lfsr, s.config.probability_permille).0 && s.config.target_bit < 29 ==> ({
            let ft = s.config.fault_type;
            let t = s.config.target_bit;
            let r = can_id(s, id).0;
            &&& ft == FaultType::BitFlip ==> r == id ^ (1u32 << t)
            &&& ft == FaultType::StuckAtZero ==> r == id & !(1u32 << t)
            &&& ft == FaultType::StuckAtOne ==> r == id | (1u32 << t)
            &&& ft != FaultType::BitFlip && ft != FaultType::StuckAtZero && ft != FaultType::StuckAtOne ==> r
                == id
        }),
        can_id(s, id).0 == id ==> can_id(s, id).1.count == s.count,
        can_id(s, id).0 != id && s.count < u32::MAX ==> can_id(s, id).1.count == s.count + 1,
        can_id(s, id).1.armed == s.armed && can_id(s, id).1.config == s.config,
{
}

/// Data bytes: a disarmed injector, or one with no fault due, passes the
/// byte and counts nothing. Armed with a fault due: a flip aimed at a
/// configured bit `t` below 8 inverts exactly bit `t`; a frame fault, or a
/// CRC fault from index 4 on, changes exactly one bit; every other case
/// passes the byte. A fault is counted exactly when the byte changed.
pub proof fn lemma_can_data_faults(s: CanInjectorState, byte: u8, index: usize)
    ensures
        !s.armed || !roll(s.lfsr, s.config.probability_permille).0 ==> can_data(s, byte, index).0 == byte
            && can_data(s, byte, index).1.count == s.count,
        s.armed && roll(s.lfsr, s.config.probability_permille).0 ==> ({
            let ft = s.config.fault_type;
            let r = can_data(s, byte, index).0;
            &&& ft == FaultType::BitFlip && s.config.target_bit < 8 ==> r == byte ^ (1u8 << s.config.target_bit)
            &&& ft == FaultType::BitFlip || ft == FaultType::FrameCorrupt || (ft == FaultType::CrcCorrupt && index
                >= 4) ==> super::bits::one_bit_apart(r, byte)
            &&& !(ft == FaultType::BitFlip || ft == FaultType::FrameCorrupt || (ft == FaultType::CrcCorrupt
                && index >= 4)) ==> r == byte
        }),
        can_data(s, byte, index).0 == byte ==> can_data(s, byte, index).1.count == s.count,
        can_data(s, byte, index).0 != byte && s.count < u32::MAX ==> can_data(s, byte, index).1.count == s.count
            + 1,
{
    let s1 = roll(s.lfsr, s.config.probability_permille).1;
    if s.config.target_bit < 8 {
        super::bits::lemma_small_bit(s.config.target_bit);
    }
    super::bits::lemma_flip_changes_one_bit(byte, pick_bit(s.config.target_bit, 8, s1).0);
    super::bits::lemma_flip_changes_one_bit(byte, (lfsr_step(s1) & 7) as u8);
}

} // verus!
