//! Power-on self-test verdicts, from the values the hardware checks read.

use vstd::prelude::*;

use crate::shared::health::{HealthError, HealthStatus};

verus! {

/// Value written below the stack top and read back to detect overflow.
pub const STACK_CANARY: u32 = 0xDEAD_BEEF;

/// Pattern written to every word of the RAM test region.
pub const RAM_PATTERN: u32 = 0xFEED_FACE;

/// Verdict of the clock check from the measured frequencies: the system
/// clock, then the timer clock, then the bus clock must be running.
pub fn clock_status(sys_hz: u32, pclk1_tim_hz: u32, hclk1_hz: u32) -> (r: HealthStatus)
    ensures
        r == (if sys_hz == 0 {
            HealthStatus::Fail(HealthError::ClockOutOfRange)
        } else if pclk1_tim_hz == 0 {
            HealthStatus::Fail(HealthError::TimerNotTicking)
        } else if hclk1_hz == 0 {
            HealthStatus::Fail(HealthError::ClockHclkNotRunning)
        } else {
            HealthStatus::Ready
        }),
{
    if sys_hz == 0 {
        return HealthStatus::Fail(HealthError::ClockOutOfRange);
    }
    if pclk1_tim_hz == 0 {
        return HealthStatus::Fail(HealthError::TimerNotTicking);
    }
    if hclk1_hz == 0 {
        return HealthStatus::Fail(HealthError::ClockHclkNotRunning);
    }
    HealthStatus::Ready
}

/// Address of the stack canary: 4 KiB below the stack top; none when the
/// stack top is unknown (zero).
pub fn canary_address(stack_top: u32) -> (r: Option<u32>)
    requires
        stack_top == 0 || stack_top >= 4096,
    ensures
        r == (if stack_top == 0 { None } else { Some((stack_top - 4096) as u32) }),
{
    if stack_top == 0 {
        None
    } else {
        Some(stack_top - 4096)
    }
}

/// Verdict of the stack check from the value read back at the canary address.
pub fn canary_status(readback: u32) -> (r: HealthStatus)
    ensures
        r == (if readback == STACK_CANARY { HealthStatus::Ready } else { HealthStatus::Fail(HealthError::StackCanary) }),
{
    if readback != STACK_CANARY {
        HealthStatus::Fail(HealthError::StackCanary)
    } else {
        HealthStatus::Ready
    }
}

/// Number of whole 32-bit words in the RAM test region `[start, end)`.
pub fn ram_words(start: u32, end: u32) -> (r: usize)
    requires
        start <= end,
    ensures
        r == (end - start) / 4,
{
    ((end - start) / 4) as usize
}

/// Verdict of the RAM test from the words read back after writing the
/// pattern: ready when every word holds it.
pub fn ram_status(readback: &[u32]) -> (r: HealthStatus)
    ensures
        r == (if forall|i: int| 0 <= i < readback@.len() ==> readback@[i] == RAM_PATTERN {
            HealthStatus::Ready
        } else {
            HealthStatus::Fail(HealthError::RamTest)
        }),
{
    let mut i: usize = 0;
    while i < readback.len()
        invariant
            i <= readback@.len(),
            forall|j: int| 0 <= j < i ==> readback@[j] == RAM_PATTERN,
        decreases readback@.len() - i,
    {
        if readback[i] != RAM_PATTERN {
            return HealthStatus::Fail(HealthError::RamTest);
        }
        i += 1;
    }
    HealthStatus::Ready
}

} // verus!
