//! Analog front end: averaging interleaved ADC readings of two channels and
//! turning them into packets of samples.

use vstd::prelude::*;

use crate::shared::packet::{pushed, ChannelId, Sample, SamplePacket};
use crate::transport::{took_full, PacketStream};

verus! {

/// Sum of the entries at positions `i < n` with `i % 2 == lane` (lane 0 holds
/// the first channel of an interleaved buffer, lane 1 the second).
pub open spec fn lane_sum(s: Seq<u16>, n: int, lane: int) -> int
    decreases n,
{
    if n <= 0 {
        0
    } else {
        lane_sum(s, n - 1, lane) + if (n - 1) % 2 == lane {
            s[n - 1] as int
        } else {
            0
        }
    }
}

/// Millivolts for a 12-bit reading on a 3.3 V reference: counts * 3300 / 4095.
pub open spec fn spec_counts_to_mv(counts: int) -> int {
    counts * 3300 / 4095
}

/// Abstract state of the sampler: the averaged millivolts of each channel and
/// the number of readings taken.
pub struct SamplerState {
    pub pa0_mv: u32,
    pub pa1_mv: u32,
    pub sample_count: u32,
}

/// State after averaging the first `count` readings of `m`: each channel's
/// lane sum divided by half the count (rounded down), in millivolts; fewer
/// than two readings change nothing.
pub open spec fn sampler_update(s: SamplerState, m: Seq<u16>, count: int) -> SamplerState {
    if count < 2 {
        s
    } else {
        SamplerState {
            pa0_mv: spec_counts_to_mv(lane_sum(m, count, 0) / (count / 2)) as u32,
            pa1_mv: spec_counts_to_mv(lane_sum(m, count, 1) / (count / 2)) as u32,
            sample_count: (s.sample_count + count) as u32,
        }
    }
}

/// Whether averaging the first `count` readings of `m` stays within `u32`.
pub open spec fn update_ok(s: SamplerState, m: Seq<u16>, count: int) -> bool {
    count >= 2 ==> {
        &&& count <= m.len()
        &&& lane_sum(m, count, 0) <= u32::MAX
        &&& lane_sum(m, count, 1) <= u32::MAX
        &&& s.sample_count + count <= u32::MAX
    }
}

/// Lane sums grow with the prefix and are at most 65535 per entry of the lane.
proof fn lemma_lane_sum_bounds(s: Seq<u16>, n: int, k: int, lane: int)
    requires
        0 <= k <= n,
        lane == 0 || lane == 1,
    ensures
        lane_sum(s, k, lane) <= lane_sum(s, n, lane),
        lane_sum(s, k, lane) >= 0,
        lane_sum(s, n, lane) <= 65535 * ((n + 1 - lane) / 2),
    decreases n,
{
    if n > 0 {
        if k < n {
            lemma_lane_sum_bounds(s, n - 1, k, lane);
        } else {
            lemma_lane_sum_bounds(s, n - 1, n - 1, lane);
        }
    }
}

/// The average of a lane is at most twice the largest reading.
proof fn lemma_lane_average(s: Seq<u16>, n: int, lane: int)
    requires
        n >= 2,
        lane == 0 || lane == 1,
    ensures
        lane_sum(s, n, lane) / (n / 2) <= 131070,
{
    lemma_lane_sum_bounds(s, n, n, lane);
    let a = lane_sum(s, n, lane);
    let d = n / 2;
    assert((n + 1 - lane) / 2 <= 2 * d);
    assert(a <= 131070 * d) by (nonlinear_arith)
        requires
            a <= 65535 * ((n + 1 - lane) / 2),
            (n + 1 - lane) / 2 <= 2 * d,
    ;
    assert(a / d <= 131070) by (nonlinear_arith)
        requires
            a <= 131070 * d,
            d >= 1,
    ;
}

/// Averages interleaved readings of the two analog inputs.
pub struct AnalogSampler {
    pa0_mv: u32,
    pa1_mv: u32,
    sample_count: u32,
}

impl View for AnalogSampler {
    type V = SamplerState;

    closed spec fn view(&self) -> SamplerState {
        SamplerState { pa0_mv: self.pa0_mv, pa1_mv: self.pa1_mv, sample_count: self.sample_count }
    }
}

impl AnalogSampler {
    /// A sampler with no readings yet.
    pub fn new() -> (r: AnalogSampler)
        ensures
            r@ == (SamplerState { pa0_mv: 0, pa1_mv: 0, sample_count: 0 }),
    {
        AnalogSampler { pa0_mv: 0, pa1_mv: 0, sample_count: 0 }
    }

    /// Converts counts to millivolts on a 3.3 V, 12-bit scale.
    pub fn counts_to_mv(counts: u32) -> (r: u32)
        requires
            counts * 3300 <= u32::MAX,
        ensures
            r == spec_counts_to_mv(counts as int),
    {
        (counts * 3300) / 4095
    }

    /// Averages the first `count` readings of `measurements`, interleaved
    /// channel 0, channel 1, ...; fewer than two readings are ignored.
    pub fn update_analog(&mut self, measurements: &[u16], count: usize)
        requires
            update_ok(old(self)@, measurements@, count as int),
        ensures
            final(self)@ == sampler_update(old(self)@, measurements@, count as int),
    {
        if count < 2 {
            return;
        }
        let ghost m = measurements@;
        let mut sum0: u32 = 0;
        let mut sum1: u32 = 0;
        let mut i: usize = 0;
        while i < count
            invariant
                2 <= count <= m.len(),
                m == measurements@,
                i <= count,
                lane_sum(m, count as int, 0) <= u32::MAX,
                lane_sum(m, count as int, 1) <= u32::MAX,
                sum0 == lane_sum(m, i as int, 0),
                sum1 == lane_sum(m, i as int, 1),
            decreases count - i,
        {
            proof {
                lemma_lane_sum_bounds(m, count as int, i + 1, 0);
                lemma_lane_sum_bounds(m, count as int, i + 1, 1);
            }
            if i % 2 == 0 {
                sum0 = sum0 + measurements[i] as u32;
            } else {
                sum1 = sum1 + measurements[i] as u32;
            }
            i += 1;
        }
        let half = (count / 2) as u32;
        proof {
            lemma_lane_average(m, count as int, 0);
            lemma_lane_average(m, count as int, 1);
        }
        self.pa0_mv = Self::counts_to_mv(sum0 / half);
        self.pa1_mv = Self::counts_to_mv(sum1 / half);
        self.sample_count += count as u32;
    }

    pub fn pa0_mv(&self) -> (r: u32)
        ensures
            r == self@.pa0_mv,
    {
        self.pa0_mv
    }

    pub fn pa1_mv(&self) -> (r: u32)
        ensures
            r == self@.pa1_mv,
    {
        self.pa1_mv
    }

    pub fn sample_count(&self) -> (r: u32)
        ensures
            r == self@.sample_count,
    {
        self.sample_count
    }
}

/// Whether an averaged value is unusable: zero or beyond 16 bits.
pub open spec fn spec_isnan(value: u32) -> bool {
    value == 0 || value > 65535
}

/// Whether an averaged value is unusable: zero or beyond 16 bits.
pub fn isnan(value: u32) -> (r: bool)
    ensures
        r == spec_isnan(value),
{
    value == 0 || value > 65535
}

/// The acquisition loop's state: the sampler, the packet stream and the
/// timestamp of the next block of readings.
pub struct AdcPipeline {
    pub sampler: AnalogSampler,
    pub stream: PacketStream,
    pub last_timestamp: u32,
}

/// `after` follows `before` by the pushes of one block: channel 0's average
/// when usable, then channel 1's, both stamped `ts`.
pub open spec fn pushed_averages(before: SamplePacket, after: SamplePacket, s: SamplerState, ts: u32) -> bool {
    exists|mid: SamplePacket| #[trigger] pushed_averages_via(before, mid, after, s, ts)
}

/// `after` follows `before` by the pushes of one block, `mid` being the
/// packet between the two pushes.
pub open spec fn pushed_averages_via(
    before: SamplePacket,
    mid: SamplePacket,
    after: SamplePacket,
    s: SamplerState,
    ts: u32,
) -> bool {
    let a0 = Sample { channel: ChannelId::Analog0, timestamp_us: ts, value: s.pa0_mv, flags: 0 };
    let a1 = Sample { channel: ChannelId::Analog1, timestamp_us: ts, value: s.pa1_mv, flags: 0 };
    &&& (if spec_isnan(s.pa0_mv) { mid == before } else { pushed(before, mid, a0) })
    &&& (if spec_isnan(s.pa1_mv) { after == mid } else { pushed(mid, after, a1) })
}

/// The stream `after` and the packet handed out `out` result from the stream
/// `before` by the pushes of one block (averages `s`, timestamp `ts`) followed
/// by taking the packet out when full, `filled` being the stream in between.
pub open spec fn block_via(
    before: PacketStream,
    filled: PacketStream,
    out: Option<SamplePacket>,
    after: PacketStream,
    s: SamplerState,
    ts: u32,
) -> bool {
    &&& filled.seq == before.seq
    &&& pushed_averages(before.packet, filled.packet, s, ts)
    &&& took_full(filled, out, after)
}

/// Number of readings of a block of `n` taken from a buffer `m`: at most its length.
pub open spec fn block_count(m: Seq<u16>, n: int) -> int {
    if n < m.len() {
        n
    } else {
        m.len() as int
    }
}

/// Whether handling a block of `n` readings stays within the counters' range.
pub open spec fn block_ok(p: AdcPipeline, m: Seq<u16>, n: int) -> bool {
    let count = block_count(m, n);
    &&& update_ok(p.sampler@, m, count)
    &&& count * 100 <= u32::MAX
}

impl AdcPipeline {
    /// A pipeline at timestamp zero with an empty sampler and stream.
    pub fn new() -> (r: AdcPipeline)
        ensures
            r.sampler@ == (SamplerState { pa0_mv: 0, pa1_mv: 0, sample_count: 0 }),
            r.stream.seq == 0,
            crate::shared::packet::is_fresh(r.stream.packet),
            r.last_timestamp == 0,
    {
        AdcPipeline { sampler: AnalogSampler::new(), stream: PacketStream::new(), last_timestamp: 0 }
    }

    /// Handles a block of `n` readings (at most the buffer's length are used):
    /// averages them, adds each usable channel average to the packet at the
    /// current timestamp, hands out the packet when full, and moves the
    /// timestamp on by 100 µs per reading (wrapping). An empty block changes
    /// nothing.
    pub fn on_samples(&mut self, measurements: &[u16], n: usize) -> (r: Option<SamplePacket>)
        requires
            block_ok(*old(self), measurements@, n as int),
        ensures
            block_count(measurements@, n as int) == 0 ==> r is None && *final(self) == *old(self),
            block_count(measurements@, n as int) > 0 ==> final(self).sampler@ == sampler_update(
                old(self).sampler@,
                measurements@,
                block_count(measurements@, n as int),
            ),
            block_count(measurements@, n as int) > 0 ==> exists|filled: PacketStream|
                #[trigger] block_via(
                    old(self).stream,
                    filled,
                    r,
                    final(self).stream,
                    sampler_update(old(self).sampler@, measurements@, block_count(measurements@, n as int)),
                    old(self).last_timestamp,
                ),
            block_count(measurements@, n as int) > 0 ==> final(self).last_timestamp == (old(self).last_timestamp
                + block_count(measurements@, n as int) * 100) % 0x1_0000_0000,
    {
        let count = if n < measurements.len() { n } else { measurements.len() };
        if count == 0 {
            return None;
        }
        self.sampler.update_analog(measurements, count);
        let ts = self.last_timestamp;
        let pa0 = self.sampler.pa0_mv();
        let pa1 = self.sampler.pa1_mv();
        let ghost before = self.stream.packet;
        if !isnan(pa0) {
            self.stream.push(ChannelId::Analog0, ts, pa0);
        }
        let ghost mid = self.stream.packet;
        if !isnan(pa1) {
            self.stream.push(ChannelId::Analog1, ts, pa1);
        }
        let ghost filled = self.stream;
        assert(pushed_averages_via(before, mid, filled.packet, self.sampler@, ts));
        let out = self.stream.take_full();
        self.last_timestamp = self.last_timestamp.wrapping_add(count as u32 * 100);
        assert(block_via(old(self).stream, filled, out, self.stream, self.sampler@, ts));
        out
    }
}

/// Lane sums of a buffer whose even positions all read `v0` and odd
/// positions all read `v1`.
proof fn lemma_lane_sum_constant(m: Seq<u16>, n: int, v0: u16, v1: u16)
    requires
        0 <= n <= m.len(),
        forall|i: int| 0 <= i < n ==> m[i] == (if i % 2 == 0 { v0 } else { v1 }),
    ensures
        lane_sum(m, n, 0) == ((n + 1) / 2) * v0,
        lane_sum(m, n, 1) == (n / 2) * v1,
    decreases n,
{
    if n > 0 {
        lemma_lane_sum_constant(m, n - 1, v0, v1);
        let h = n / 2;
        if (n - 1) % 2 == 0 {
            assert(m[n - 1] == v0);
            assert((n + 1) / 2 == h + 1 && (n - 1) / 2 == h);
            assert((h + 1) * v0 == h * v0 + v0) by (nonlinear_arith);
            assert(lane_sum(m, n, 0) == lane_sum(m, n - 1, 0) + v0);
            assert(lane_sum(m, n, 1) == lane_sum(m, n - 1, 1));
        } else {
            assert(m[n - 1] == v1);
            assert((n + 1) / 2 == h && (n - 1) / 2 == h - 1);
            assert((h - 1) * v1 + v1 == h * v1) by (nonlinear_arith);
            assert(lane_sum(m, n, 0) == lane_sum(m, n - 1, 0));
            assert(lane_sum(m, n, 1) == lane_sum(m, n - 1, 1) + v1);
        }
    } else {
        assert(((n + 1) / 2) * v0 == 0 && (n / 2) * v1 == 0) by (nonlinear_arith)
            requires
                n == 0,
        ;
    }
}

/// Averaging a block whose channel 0 readings all equal `v0` and channel 1
/// readings all equal `v1` (an even number of interleaved readings) gives
/// each channel's reading in millivolts, v * 3300 / 4095 rounded down, and
/// counts the readings taken.
pub proof fn lemma_sampler_constant_lanes(s: SamplerState, m: Seq<u16>, count: int, v0: u16, v1: u16)
    requires
        2 <= count <= m.len(),
        count % 2 == 0,
        forall|i: int| 0 <= i < count ==> m[i] == (if i % 2 == 0 { v0 } else { v1 }),
        s.sample_count + count <= u32::MAX,
    ensures
        sampler_update(s, m, count).pa0_mv == v0 * 3300 / 4095,
        sampler_update(s, m, count).pa1_mv == v1 * 3300 / 4095,
        sampler_update(s, m, count).sample_count == s.sample_count + count,
{
    lemma_lane_sum_constant(m, count, v0, v1);
    let k = count / 2;
    assert((count + 1) / 2 == k);
    assert((k * v0) / k == v0 && (k * v1) / k == v1) by (nonlinear_arith)
        requires
            k >= 1,
    ;
    assert(v0 * 3300 / 4095 <= 60000 && v1 * 3300 / 4095 <= 60000) by (nonlinear_arith)
        requires
            v0 <= 65535,
            v1 <= 65535,
    ;
}

} // verus!
