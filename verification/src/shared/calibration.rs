use vstd::prelude::*;

use super::packet::{le16, le32, ChannelId};

verus! {

/// ADC calibration: reference voltage and per-channel offset and full-scale gain.
pub struct AdcCalibration {
    pub vref_mv: u16,
    pub offset_ch0: i16,
    pub offset_ch1: i16,
    pub gain_ch0: u16,
    pub gain_ch1: u16,
}

/// `counts` read as a two's-complement 32-bit value.
pub open spec fn signed_counts(counts: u32) -> int {
    if counts <= i32::MAX {
        counts as int
    } else {
        counts - 0x1_0000_0000
    }
}

/// `x` clamped to the range of `i32`.
pub open spec fn saturate_i32(x: int) -> int {
    if x > i32::MAX {
        i32::MAX as int
    } else if x < i32::MIN {
        i32::MIN as int
    } else {
        x
    }
}

/// Counts after removing `offset`, saturated to `i32` and clamped at zero.
pub open spec fn adjusted_counts(counts: u32, offset: i16) -> int {
    let a = saturate_i32(signed_counts(counts) - offset);
    if a < 0 {
        0
    } else {
        a
    }
}

/// Offset and gain of an analog channel; none for the PWM input.
pub open spec fn channel_cal(cal: AdcCalibration, channel: ChannelId) -> Option<(i16, u16)> {
    match channel {
        ChannelId::Analog0 => Some((cal.offset_ch0, cal.gain_ch0)),
        ChannelId::Analog1 => Some((cal.offset_ch1, cal.gain_ch1)),
        ChannelId::PwmIn => None,
    }
}

/// Millivolts for `counts` on `channel`: adjusted counts times the reference
/// voltage, divided by the gain (rounded down); zero for the PWM input.
pub open spec fn spec_counts_to_mv(cal: AdcCalibration, counts: u32, channel: ChannelId) -> int {
    match channel_cal(cal, channel) {
        Some((offset, gain)) => adjusted_counts(counts, offset) * cal.vref_mv / (gain as int),
        None => 0,
    }
}

/// Whether the conversion of `counts` on `channel` stays within `u32` and
/// divides by a nonzero gain.
pub open spec fn counts_to_mv_ok(cal: AdcCalibration, counts: u32, channel: ChannelId) -> bool {
    match channel_cal(cal, channel) {
        Some((offset, gain)) => gain != 0 && adjusted_counts(counts, offset) * cal.vref_mv <= u32::MAX,
        None => true,
    }
}

impl AdcCalibration {
    /// 3.3 V reference, no offsets, 12-bit full scale on both channels.
    pub fn default() -> (r: AdcCalibration)
        ensures
            r == (AdcCalibration { vref_mv: 3300, offset_ch0: 0, offset_ch1: 0, gain_ch0: 4095, gain_ch1: 4095 }),
    {
        AdcCalibration { vref_mv: 3300, offset_ch0: 0, offset_ch1: 0, gain_ch0: 4095, gain_ch1: 4095 }
    }

    /// Converts raw ADC counts on `channel` to millivolts.
    pub fn counts_to_mv(&self, counts: u32, channel: ChannelId) -> (r: u32)
        requires
            counts_to_mv_ok(*self, counts, channel),
        ensures
            r == spec_counts_to_mv(*self, counts, channel),
    {
        let (offset, gain) = match channel {
            ChannelId::Analog0 => (self.offset_ch0, self.gain_ch0),
            ChannelId::Analog1 => (self.offset_ch1, self.gain_ch1),
            _ => return 0,
        };
        let signed: i64 = if counts <= 0x7FFF_FFFF {
            counts as i64
        } else {
            counts as i64 - 0x1_0000_0000
        };
        let mut a: i64 = signed - offset as i64;
        if a > 0x7FFF_FFFF {
            a = 0x7FFF_FFFF;
        } else if a < -0x8000_0000 {
            a = -0x8000_0000;
        }
        if a < 0 {
            a = 0;
        }
        let adjusted = a as u32;
        (adjusted * self.vref_mv as u32) / gain as u32
    }
}

/// Counts at or below a channel's offset read as zero millivolts.
pub proof fn lemma_below_offset_is_zero(cal: AdcCalibration, counts: u32, channel: ChannelId)
    requires
        channel_cal(cal, channel) matches Some((offset, gain)) && gain != 0 && signed_counts(counts) <= offset,
    ensures
        spec_counts_to_mv(cal, counts, channel) == 0,
{
}

/// Acquisition settings reported to the host.
pub struct AcquisitionConfig {
    pub sample_rate_hz: u32,
    pub channels_active: u8,
    pub dma_depth: u16,
}

/// Bytes of an acquisition configuration on the wire.
pub const CONFIG_WIRE_BYTES: usize = 8;

/// Wire bytes of a configuration: rate (little-endian), active-channel mask,
/// one zero byte, DMA depth (little-endian).
pub open spec fn config_bytes(c: AcquisitionConfig) -> Seq<u8> {
    le32(c.sample_rate_hz) + seq![c.channels_active, 0u8] + le16(c.dma_depth)
}

impl AcquisitionConfig {
    /// 10 kHz, both analog channels, 4096-entry DMA ring.
    pub fn default() -> (r: AcquisitionConfig)
        ensures
            r == (AcquisitionConfig { sample_rate_hz: 10_000, channels_active: 0x03, dma_depth: 4096 }),
    {
        AcquisitionConfig { sample_rate_hz: 10_000, channels_active: 0x03, dma_depth: 4096 }
    }

    /// The configuration as sent on the wire (8 bytes).
    pub fn as_bytes(&self) -> (r: [u8; CONFIG_WIRE_BYTES])
        ensures
            r@ == config_bytes(*self),
    {
        let v = self.sample_rate_hz;
        let r = [
            (v % 256) as u8,
            ((v / 256) % 256) as u8,
            ((v / 65536) % 256) as u8,
            (v / 16777216) as u8,
            self.channels_active,
            0,
            (self.dma_depth % 256) as u8,
            (self.dma_depth / 256) as u8,
        ];
        assert(r@ =~= config_bytes(*self));
        r
    }
}

/// A conversion on an analog channel gives the counts above the channel's
/// own offset (read as signed, none when at or below it, at most `i32::MAX`)
/// times the reference voltage, divided by the channel's own gain and rounded
/// down; the PWM input reads zero.
pub proof fn lemma_counts_to_mv_rounds_down(cal: AdcCalibration, counts: u32, channel: ChannelId)
    ensures
        channel == ChannelId::PwmIn ==> spec_counts_to_mv(cal, counts, channel) == 0,
        channel != ChannelId::PwmIn ==> ({
            let o = if channel == ChannelId::Analog0 { cal.offset_ch0 } else { cal.offset_ch1 };
            let g = if channel == ChannelId::Analog0 { cal.gain_ch0 } else { cal.gain_ch1 };
            let d = signed_counts(counts) - o;
            let above = if d < 0 { 0 } else if d > i32::MAX { i32::MAX as int } else { d };
            let r = spec_counts_to_mv(cal, counts, channel);
            g != 0 ==> r >= 0 && r * g <= above * cal.vref_mv < (r + 1) * g
        }),
{
    if channel != ChannelId::PwmIn {
        let o = if channel == ChannelId::Analog0 { cal.offset_ch0 } else { cal.offset_ch1 };
        let g = if channel == ChannelId::Analog0 { cal.gain_ch0 } else { cal.gain_ch1 };
        let x = adjusted_counts(counts, o) * cal.vref_mv;
        let r = x / (g as int);
        assert(g != 0 ==> r >= 0 && r * g <= x < (r + 1) * g) by (nonlinear_arith)
            requires
                x >= 0,
                r == x / (g as int),
        ;
    }
}

} // verus!
