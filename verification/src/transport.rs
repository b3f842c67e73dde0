//! Packet streaming: filling packets, numbering them, and handing them out
//! for transmission when full.

use vstd::prelude::*;

use crate::shared::packet::{is_fresh, pushed, ChannelId, Sample, SamplePacket, SAMPLES_PER_PACKET};

verus! {

/// The packet being filled and the sequence number the next full packet gets.
pub struct PacketStream {
    pub packet: SamplePacket,
    pub seq: u16,
}

/// `after` is `before` once a full packet has been taken out: the full packet,
/// stamped with the magic and the current sequence number, is `out`, the
/// stream restarts on a fresh packet and the sequence number moves on
/// (wrapping); when the packet is not full, nothing is taken and nothing changes.
pub open spec fn took_full(before: PacketStream, out: Option<SamplePacket>, after: PacketStream) -> bool {
    if before.packet.count >= SAMPLES_PER_PACKET {
        &&& out matches Some(p) && {
            &&& p.magic == SamplePacket::MAGIC
            &&& p.seq == before.seq
            &&& p.count == before.packet.count
            &&& p.samples == before.packet.samples
        }
        &&& is_fresh(after.packet)
        &&& after.seq == (if before.seq == u16::MAX { 0 } else { (before.seq + 1) as u16 })
    } else {
        out is None && after == before
    }
}

impl PacketStream {
    /// A stream at sequence number zero, filling a fresh packet.
    pub fn new() -> (r: PacketStream)
        ensures
            is_fresh(r.packet),
            r.seq == 0,
    {
        PacketStream { packet: SamplePacket::new(), seq: 0 }
    }

    /// Adds a sample to the packet being filled (dropped when it is full).
    pub fn push(&mut self, channel: ChannelId, timestamp_us: u32, value: u32)
        ensures
            pushed(old(self).packet, final(self).packet, Sample { channel, timestamp_us, value, flags: 0 }),
            final(self).seq == old(self).seq,
    {
        self.packet.push(channel, timestamp_us, value);
    }

    /// Takes the packet out for transmission when it is full.
    pub fn take_full(&mut self) -> (r: Option<SamplePacket>)
        ensures
            took_full(*old(self), r, *final(self)),
    {
        if self.packet.is_full() {
            self.packet.finalize(self.seq);
            let mut full = SamplePacket::new();
            std::mem::swap(&mut full, &mut self.packet);
            self.seq = self.seq.wrapping_add(1);
            Some(full)
        } else {
            None
        }
    }
}

/// The timestamp following `previous`: 100 µs later, wrapping around.
pub open spec fn spec_next_timestamp(previous: u32) -> u32 {
    ((previous as int + 100) % 0x1_0000_0000) as u32
}

/// `after` follows `before` by the two pushes of one streaming tick at
/// timestamp `ts`, `mid` being the packet between them.
pub open spec fn tick_pushes(before: SamplePacket, mid: SamplePacket, after: SamplePacket, ts: u32) -> bool {
    &&& pushed(before, mid, Sample { channel: ChannelId::Analog0, timestamp_us: ts, value: 0, flags: 0 })
    &&& pushed(mid, after, Sample { channel: ChannelId::Analog1, timestamp_us: ts, value: 2048, flags: 0 })
}

/// The stream `after` and the packet handed out `out` follow `before` by one
/// streaming tick at timestamp `ts`, `filled` being the stream before the
/// hand-out.
pub open spec fn tick_via(before: PacketStream, filled: PacketStream, out: Option<SamplePacket>, after: PacketStream, ts: u32) -> bool {
    &&& filled.seq == before.seq
    &&& exists|mid: SamplePacket| #[trigger] tick_pushes(before.packet, mid, filled.packet, ts)
    &&& took_full(filled, out, after)
}

/// One tick of the streaming task: the timestamp moves on by 100 µs, the
/// placeholder readings of channels 0 and 1 are added at it, and the packet
/// is handed out when full. Returns the new timestamp and that packet.
pub fn transport_tick(stream: &mut PacketStream, last_timestamp: u32) -> (r: (u32, Option<SamplePacket>))
    ensures
        r.0 == spec_next_timestamp(last_timestamp),
        exists|filled: PacketStream| #[trigger] tick_via(*old(stream), filled, r.1, *final(stream), r.0),
{
    let ts = next_timestamp(last_timestamp);
    let ghost before = stream.packet;
    stream.push(ChannelId::Analog0, ts, get_sample_value(0));
    let ghost mid = stream.packet;
    stream.push(ChannelId::Analog1, ts, get_sample_value(1));
    let ghost filled = *stream;
    assert(tick_pushes(before, mid, filled.packet, ts));
    let out = stream.take_full();
    let r = (ts, out);
    assert(tick_via(*old(stream), filled, r.1, *stream, r.0));
    r
}

/// Placeholder reading of a channel for the streaming task: 2048 per channel number.
pub fn get_sample_value(channel: u8) -> (r: u32)
    ensures
        r == channel * 2048,
{
    channel as u32 * 2048
}

/// The timestamp following `previous`: 100 µs later, wrapping around.
pub fn next_timestamp(previous: u32) -> (r: u32)
    ensures
        r == spec_next_timestamp(previous),
{
    previous.wrapping_add(100)
}

/// Each tick moves the timestamp on by 100 µs, wrapping around past the top
/// of the 32-bit range.
pub proof fn lemma_next_timestamp_adds_100(previous: u32)
    ensures
        previous <= u32::MAX - 100 ==> spec_next_timestamp(previous) == previous + 100,
        previous > u32::MAX - 100 ==> spec_next_timestamp(previous) == previous + 100 - 0x1_0000_0000,
{
}

} // verus!
