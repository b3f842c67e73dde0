use vstd::prelude::*;

verus! {

/// Acquisition channel of a sample.
#[derive(Debug, Clone, Copy, PartialEq, Eq, Structural)]
pub enum ChannelId {
    Analog0,
    Analog1,
    PwmIn,
}

pub open spec fn spec_channel_code(c: ChannelId) -> u8 {
    match c {
        ChannelId::Analog0 => 0,
        ChannelId::Analog1 => 1,
        ChannelId::PwmIn => 2,
    }
}

impl ChannelId {
    /// Wire code of the channel: 0, 1 and 2 for Analog0, Analog1 and PwmIn.
    pub fn code(&self) -> (r: u8)
        ensures
            r == spec_channel_code(*self),
    {
        match self {
            ChannelId::Analog0 => 0,
            ChannelId::Analog1 => 1,
            ChannelId::PwmIn => 2,
        }
    }
}

/// One timestamped reading of a channel.
#[derive(Debug, Clone, Copy, PartialEq, Eq, Structural)]
pub struct Sample {
    pub channel: ChannelId,
    pub timestamp_us: u32,
    pub value: u32,
    pub flags: u8,
}

/// Number of samples a packet holds.
pub const SAMPLES_PER_PACKET: usize = 32;

/// Bytes one sample takes on the wire: channel, three zero bytes, timestamp,
/// value, flags, three zero bytes.
pub const SAMPLE_WIRE_BYTES: usize = 16;

/// Bytes of the packet header on the wire: magic, sequence number, count.
pub const HEADER_WIRE_BYTES: usize = 6;

/// Bytes of a whole packet on the wire.
pub const PACKET_WIRE_BYTES: usize = 518;

/// A packet of up to 32 samples, with a magic number, a sequence number and
/// the number of samples filled in.
pub struct SamplePacket {
    pub magic: u16,
    pub seq: u16,
    pub count: u16,
    pub samples: [Sample; SAMPLES_PER_PACKET],
}

/// The sample every slot of a fresh packet holds.
pub open spec fn blank_sample() -> Sample {
    Sample { channel: ChannelId::Analog0, timestamp_us: 0, value: 0, flags: 0 }
}

/// `after` is `before` with `s` stored in the next free slot, or `before`
/// itself when it is full.
pub open spec fn pushed(before: SamplePacket, after: SamplePacket, s: Sample) -> bool {
    if before.count < SAMPLES_PER_PACKET {
        &&& after.samples@ == before.samples@.update(before.count as int, s)
        &&& after.count == before.count + 1
        &&& after.magic == before.magic
        &&& after.seq == before.seq
    } else {
        after == before
    }
}

/// Whether `p` is a packet as `SamplePacket::new` makes it.
pub open spec fn is_fresh(p: SamplePacket) -> bool {
    &&& p.magic == SamplePacket::MAGIC
    &&& p.seq == 0
    &&& p.count == 0
    &&& p.samples@ == Seq::new(SAMPLES_PER_PACKET as nat, |i: int| blank_sample())
}

/// Little-endian bytes of a 16-bit value.
pub open spec fn le16(v: u16) -> Seq<u8> {
    seq![(v % 256) as u8, (v / 256) as u8]
}

/// Little-endian bytes of a 32-bit value.
pub open spec fn le32(v: u32) -> Seq<u8> {
    seq![(v % 256) as u8, ((v / 256) % 256) as u8, ((v / 65536) % 256) as u8, (v / 16777216) as u8]
}

/// Wire bytes of one sample.
pub open spec fn sample_bytes(s: Sample) -> Seq<u8> {
    seq![spec_channel_code(s.channel), 0u8, 0u8, 0u8] + le32(s.timestamp_us) + le32(s.value) + seq![
        s.flags,
        0u8,
        0u8,
        0u8,
    ]
}

/// Wire bytes of a run of samples, one after the other.
pub open spec fn samples_bytes(s: Seq<Sample>) -> Seq<u8>
    decreases s.len(),
{
    if s.len() == 0 {
        Seq::empty()
    } else {
        samples_bytes(s.drop_last()) + sample_bytes(s.last())
    }
}

/// Wire bytes of a packet: the header fields in little-endian order, then
/// all 32 sample slots, filled or not.
pub open spec fn packet_bytes(p: SamplePacket) -> Seq<u8> {
    le16(p.magic) + le16(p.seq) + le16(p.count) + samples_bytes(p.samples@)
}

/// Little-endian 16-bit value read at `off`.
pub open spec fn read_le16(b: Seq<u8>, off: int) -> int {
    b[off] + 256 * b[off + 1]
}

/// Little-endian 32-bit value read at `off`.
pub open spec fn read_le32(b: Seq<u8>, off: int) -> int {
    b[off] + 256 * b[off + 1] + 65536 * b[off + 2] + 16777216 * b[off + 3]
}

/// Writes the wire bytes of `s` at `off`, leaving the bytes before it alone.
fn put_sample(out: &mut [u8; PACKET_WIRE_BYTES], off: usize, s: &Sample)
    requires
        off + SAMPLE_WIRE_BYTES <= PACKET_WIRE_BYTES,
    ensures
        final(out)@.take(off as int) == old(out)@.take(off as int),
        final(out)@.subrange(off as int, off + SAMPLE_WIRE_BYTES) == sample_bytes(*s),
{
    let t = s.timestamp_us;
    let v = s.value;
    out[off] = s.channel.code();
    out[off + 1] = 0;
    out[off + 2] = 0;
    out[off + 3] = 0;
    out[off + 4] = (t % 256) as u8;
    out[off + 5] = ((t / 256) % 256) as u8;
    out[off + 6] = ((t / 65536) % 256) as u8;
    out[off + 7] = (t / 16777216) as u8;
    out[off + 8] = (v % 256) as u8;
    out[off + 9] = ((v / 256) % 256) as u8;
    out[off + 10] = ((v / 65536) % 256) as u8;
    out[off + 11] = (v / 16777216) as u8;
    out[off + 12] = s.flags;
    out[off + 13] = 0;
    out[off + 14] = 0;
    out[off + 15] = 0;
    assert(out@.take(off as int) =~= old(out)@.take(off as int));
    assert(out@.subrange(off as int, off + SAMPLE_WIRE_BYTES) =~= sample_bytes(*s));
}

impl SamplePacket {
    pub const MAGIC: u16 = 0xDA71;

    /// An empty packet: magic set, sequence number and count zero, every slot blank.
    pub fn new() -> (r: SamplePacket)
        ensures
            is_fresh(r),
    {
        let s = Sample { channel: ChannelId::Analog0, timestamp_us: 0, value: 0, flags: 0 };
        let r = SamplePacket { magic: Self::MAGIC, seq: 0, count: 0, samples: [s; 32] };
        assert(r.samples@ =~= Seq::new(SAMPLES_PER_PACKET as nat, |i: int| blank_sample()));
        r
    }

    /// Stores a sample (flags zero) in the next free slot; does nothing when
    /// the packet is full.
    pub fn push(&mut self, channel: ChannelId, timestamp_us: u32, value: u32)
        ensures
            pushed(*old(self), *final(self), Sample { channel, timestamp_us, value, flags: 0 }),
    {
        let idx = self.count as usize;
        if idx < SAMPLES_PER_PACKET {
            self.samples[idx] = Sample { channel, timestamp_us, value, flags: 0 };
            self.count += 1;
        }
    }

    /// Whether every slot is filled.
    pub fn is_full(&self) -> (r: bool)
        ensures
            r == (self.count >= SAMPLES_PER_PACKET),
    {
        self.count as usize >= SAMPLES_PER_PACKET
    }

    /// Stamps the packet with the magic number and sequence number `seq`.
    pub fn finalize(&mut self, seq: u16)
        ensures
            final(self).magic == Self::MAGIC,
            final(self).seq == seq,
            final(self).count == old(self).count,
            final(self).samples == old(self).samples,
    {
        self.magic = Self::MAGIC;
        self.seq = seq;
    }

    /// The packet as sent on the wire (518 bytes).
    pub fn as_bytes(&self) -> (r: [u8; PACKET_WIRE_BYTES])
        ensures
            r@ == packet_bytes(*self),
    {
        let mut out = [0u8; PACKET_WIRE_BYTES];
        out[0] = (self.magic % 256) as u8;
        out[1] = (self.magic / 256) as u8;
        out[2] = (self.seq % 256) as u8;
        out[3] = (self.seq / 256) as u8;
        out[4] = (self.count % 256) as u8;
        out[5] = (self.count / 256) as u8;
        let ghost header = le16(self.magic) + le16(self.seq) + le16(self.count);
        assert(out@.take(HEADER_WIRE_BYTES as int) =~= header);
        let mut i: usize = 0;
        while i < SAMPLES_PER_PACKET
            invariant
                0 <= i <= SAMPLES_PER_PACKET,
                self.samples@.len() == SAMPLES_PER_PACKET,
                out@.len() == PACKET_WIRE_BYTES,
                header == le16(self.magic) + le16(self.seq) + le16(self.count),
                out@.take(HEADER_WIRE_BYTES + SAMPLE_WIRE_BYTES * i) == header + samples_bytes(
                    self.samples@.take(i as int),
                ),
            decreases SAMPLES_PER_PACKET - i,
        {
            let off = HEADER_WIRE_BYTES + SAMPLE_WIRE_BYTES * i;
            let ghost before = out@;
            put_sample(&mut out, off, &self.samples[i]);
            proof {
                assert(self.samples@.take(i + 1).drop_last() =~= self.samples@.take(i as int));
                assert(self.samples@.take(i + 1).last() == self.samples@[i as int]);
                assert(out@.take(off + SAMPLE_WIRE_BYTES) =~= out@.take(off as int) + out@.subrange(
                    off as int,
                    off + SAMPLE_WIRE_BYTES,
                ));
                assert(out@.take(off as int) =~= before.take(off as int));
                assert(out@.take(HEADER_WIRE_BYTES + SAMPLE_WIRE_BYTES * (i + 1)) =~= header
                    + samples_bytes(self.samples@.take(i + 1)));
            }
            i += 1;
        }
        proof {
            assert(self.samples@.take(SAMPLES_PER_PACKET as int) =~= self.samples@);
            assert(out@.take(PACKET_WIRE_BYTES as int) =~= out@);
        }
        out
    }
}

/// A push never takes the count past 32, and pushing into a full packet
/// leaves it unchanged.
pub proof fn lemma_push_bounded(before: SamplePacket, after: SamplePacket, s: Sample)
    requires
        pushed(before, after, s),
        before.count <= SAMPLES_PER_PACKET,
    ensures
        after.count <= SAMPLES_PER_PACKET,
        before.count == SAMPLES_PER_PACKET ==> after == before,
{
}

/// A run of samples takes 16 bytes per sample.
pub proof fn lemma_samples_bytes_len(s: Seq<Sample>)
    ensures
        samples_bytes(s).len() == SAMPLE_WIRE_BYTES * s.len(),
    decreases s.len(),
{
    if s.len() > 0 {
        lemma_samples_bytes_len(s.drop_last());
    }
}

/// Byte `j` of sample `k` of a run sits at offset `16 * k + j`.
pub proof fn lemma_samples_bytes_index(s: Seq<Sample>, k: int, j: int)
    requires
        0 <= k < s.len(),
        0 <= j < 16,
    ensures
        samples_bytes(s).len() == 16 * s.len(),
        samples_bytes(s)[16 * k + j] == sample_bytes(s[k])[j],
    decreases s.len(),
{
    lemma_samples_bytes_len(s);
    lemma_samples_bytes_len(s.drop_last());
    let n = s.len() - 1;
    if k < n {
        lemma_samples_bytes_index(s.drop_last(), k, j);
        assert(16 * k + j < 16 * n) by (nonlinear_arith)
            requires
                k < n,
                j < 16,
        ;
    } else {
        assert(16 * k + j - 16 * n == j);
    }
}

/// Reading a packet's wire bytes back gives the packet: the header fields at
/// offsets 0, 2 and 4, and for each slot `k` the channel code, timestamp,
/// value and flags at offsets 6 + 16k, + 4, + 8 and + 12.
pub proof fn lemma_packet_bytes_decode(p: SamplePacket)
    ensures
        packet_bytes(p).len() == PACKET_WIRE_BYTES,
        read_le16(packet_bytes(p), 0) == p.magic,
        read_le16(packet_bytes(p), 2) == p.seq,
        read_le16(packet_bytes(p), 4) == p.count,
        forall|k: int| 0 <= k < SAMPLES_PER_PACKET ==> {
            let b = packet_bytes(p);
            let off = HEADER_WIRE_BYTES + SAMPLE_WIRE_BYTES * k;
            &&& b[off] == spec_channel_code(#[trigger] p.samples@[k].channel)
            &&& read_le32(b, off + 4) == p.samples@[k].timestamp_us
            &&& read_le32(b, off + 8) == p.samples@[k].value
            &&& b[off + 12] == p.samples@[k].flags
        },
{
    let b = packet_bytes(p);
    let hdr = le16(p.magic) + le16(p.seq) + le16(p.count);
    lemma_samples_bytes_len(p.samples@);
    assert(b =~= hdr + samples_bytes(p.samples@));
    assert forall|k: int| 0 <= k < SAMPLES_PER_PACKET implies {
        let off = HEADER_WIRE_BYTES + SAMPLE_WIRE_BYTES * k;
        &&& b[off] == spec_channel_code(#[trigger] p.samples@[k].channel)
        &&& read_le32(b, off + 4) == p.samples@[k].timestamp_us
        &&& read_le32(b, off + 8) == p.samples@[k].value
        &&& b[off + 12] == p.samples@[k].flags
    } by {
        let sm = p.samples@[k];
        let off = HEADER_WIRE_BYTES + SAMPLE_WIRE_BYTES * k;
        assert forall|j: int| 0 <= j < 16 implies b[off + j] == #[trigger] sample_bytes(sm)[j] by {
            lemma_samples_bytes_index(p.samples@, k, j);
        }
        assert(b[off] == sample_bytes(sm)[0]);
        assert(b[off + 4] == sample_bytes(sm)[4]);
        assert(b[off + 5] == sample_bytes(sm)[5]);
        assert(b[off + 6] == sample_bytes(sm)[6]);
        assert(b[off + 7] == sample_bytes(sm)[7]);
        assert(b[off + 8] == sample_bytes(sm)[8]);
        assert(b[off + 9] == sample_bytes(sm)[9]);
        assert(b[off + 10] == sample_bytes(sm)[10]);
        assert(b[off + 11] == sample_bytes(sm)[11]);
        assert(b[off + 12] == sample_bytes(sm)[12]);
        lemma_le32_decode(sm.timestamp_us);
        lemma_le32_decode(sm.value);
    }
    lemma_le16_decode(p.magic);
    lemma_le16_decode(p.seq);
    lemma_le16_decode(p.count);
}

/// The little-endian bytes of a 16-bit value read back as the value.
pub proof fn lemma_le16_decode(v: u16)
    ensures
        le16(v)[0] + 256 * le16(v)[1] == v,
{
}

/// The little-endian bytes of a 32-bit value read back as the value.
pub proof fn lemma_le32_decode(v: u32)
    ensures
        le32(v)[0] + 256 * le32(v)[1] + 65536 * le32(v)[2] + 16777216 * le32(v)[3] == v,
{
}

/// Channel codes are 0 to 2, one per channel.
pub proof fn lemma_channel_codes(a: ChannelId, b: ChannelId)
    ensures
        spec_channel_code(a) < 3,
        spec_channel_code(a) == spec_channel_code(b) ==> a == b,
{
}

/// A push into a packet with room puts the sample in the next free slot and
/// keeps every sample before it; the packet then holds one more sample.
pub proof fn lemma_push_appends(before: SamplePacket, after: SamplePacket, s: Sample)
    requires
        pushed(before, after, s),
        before.count < SAMPLES_PER_PACKET,
    ensures
        after.count == before.count + 1,
        after.samples@[before.count as int] == s,
        forall|i: int| 0 <= i < before.count ==> after.samples@[i] == before.samples@[i],
{
}

} // verus!
