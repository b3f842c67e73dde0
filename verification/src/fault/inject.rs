use vstd::prelude::*;

use super::bits::{
    bit_clear, bit_flip, bit_set, pick_bit, pick_bit_index, spec_bit_clear, spec_bit_flip,
    spec_bit_set, Lfsr,
};
use crate::shared::faults::{FaultConfig, FaultType};

verus! {

/// Abstract state of a SPI, I2C or 1-Wire injector: its configuration, the
/// state of its pseudo-random register, the number of faults it injected, and
/// the busy-wait (in CPU cycles) that its last call asked the caller to spend.
pub struct InjectorState {
    pub config: FaultConfig,
    pub lfsr: u16,
    pub count: u32,
    pub delay_cycles: u32,
}

/// Whether `ft` corrupts a single bit (flip, stuck at zero, stuck at one).
pub open spec fn is_bit_fault(ft: FaultType) -> bool {
    ft == FaultType::BitFlip || ft == FaultType::StuckAtZero || ft == FaultType::StuckAtOne
}

/// `byte` with bit `bit` corrupted as `ft` says; unchanged for other faults.
pub open spec fn corrupt(ft: FaultType, byte: u8, bit: u8) -> u8 {
    if ft == FaultType::BitFlip {
        spec_bit_flip(byte, bit)
    } else if ft == FaultType::StuckAtZero {
        spec_bit_clear(byte, bit)
    } else if ft == FaultType::StuckAtOne {
        spec_bit_set(byte, bit)
    } else {
        byte
    }
}

/// The bit fault `ft` applied to `byte` at the configured bit `target` (or a
/// pseudo-random one when `target` is not below `limit`), with the register
/// state afterwards.
pub open spec fn corrupt_at(ft: FaultType, byte: u8, target: u8, limit: u8, s: u16) -> (u8, u16) {
    let (bit, s1) = pick_bit(target, limit, s);
    (corrupt(ft, byte, bit), s1)
}

/// Busy-wait cycles for a delay of `duration_us` microseconds at 21 cycles
/// per microsecond, as the delay-style faults of SPI, I2C and 1-Wire ask.
pub open spec fn delay_cycles_for(duration_us: u32) -> int {
    duration_us * 21
}

/// Applies the bit fault `ft` to `byte`.
pub(crate) fn corrupt_byte(lfsr: &mut Lfsr, ft: FaultType, byte: u8, target: u8, limit: u8) -> (r: u8)
    requires
        is_bit_fault(ft),
        0 < limit <= 8,
    ensures
        (r, final(lfsr)@) == corrupt_at(ft, byte, target, limit, old(lfsr)@),
{
    let bit = pick_bit_index(lfsr, target, limit);
    match ft {
        FaultType::BitFlip => bit_flip(byte, bit),
        FaultType::StuckAtZero => bit_clear(byte, bit),
        _ => bit_set(byte, bit),
    }
}

/// Cycles for a delay of `duration_us` microseconds.
pub(crate) fn delay_cycles(duration_us: u32) -> (r: u32)
    requires
        delay_cycles_for(duration_us) <= u32::MAX,
    ensures
        r == delay_cycles_for(duration_us),
{
    duration_us * 21
}

/// A bit fault aimed at a configured bit `t` below the limit hits exactly that
/// bit and draws nothing from the register: a flip inverts bit `t`, stuck at
/// zero clears it, stuck at one sets it, and every other bit is kept; any
/// other fault type leaves the byte alone.
pub proof fn lemma_fault_at_target(ft: FaultType, byte: u8, t: u8, limit: u8, s: u16)
    requires
        t < limit <= 8,
    ensures
        corrupt_at(ft, byte, t, limit, s).1 == s,
        ft == FaultType::BitFlip ==> corrupt_at(ft, byte, t, limit, s).0 == byte ^ (1u8 << t),
        ft == FaultType::StuckAtZero ==> corrupt_at(ft, byte, t, limit, s).0 == byte & !(1u8 << t),
        ft == FaultType::StuckAtOne ==> corrupt_at(ft, byte, t, limit, s).0 == byte | (1u8 << t),
        !is_bit_fault(ft) ==> corrupt_at(ft, byte, t, limit, s).0 == byte,
{
    super::bits::lemma_small_bit(t);
}

} // verus!
