use vstd::prelude::*;

verus! {

/// Telemetry source; its position in this list is its index in a backend's
/// table of raw readings.
#[derive(Debug, Clone, Copy, PartialEq, Eq, Structural)]
pub enum TelemetryChannel {
    Voltage,
    Current,
    Temperature,
    Rtc,
    Gpio,
}

pub open spec fn spec_channel_index(c: TelemetryChannel) -> usize {
    match c {
        TelemetryChannel::Voltage => 0,
        TelemetryChannel::Current => 1,
        TelemetryChannel::Temperature => 2,
        TelemetryChannel::Rtc => 3,
        TelemetryChannel::Gpio => 4,
    }
}

impl TelemetryChannel {
    /// Position of the channel in declaration order.
    pub fn index(&self) -> (r: usize)
        ensures
            r == spec_channel_index(*self),
    {
        match self {
            TelemetryChannel::Voltage => 0,
            TelemetryChannel::Current => 1,
            TelemetryChannel::Temperature => 2,
            TelemetryChannel::Rtc => 3,
            TelemetryChannel::Gpio => 4,
        }
    }
}

/// One calibrated telemetry reading.
#[derive(Debug, Clone, Copy, PartialEq, Eq, Structural)]
pub struct TelemetryFrame {
    pub channel: TelemetryChannel,
    pub timestamp_us: u32,
    pub value_i32: i32,
    pub value_u32: u32,
    pub flags: u8,
}

/// A source of telemetry readings for sensors of type `S`.
pub trait TelemetryReader<'d, S> {
    type Error;

    /// Whether calibrating a reading of `sensor` stays within the range of
    /// the frame's value.
    spec fn can_calibrate(&self, sensor: &S) -> bool;

    fn read_raw(&mut self, sensor: &'d S) -> Result<u32, Self::Error>;

    fn read_calibrated(&mut self, sensor: &'d S) -> Result<TelemetryFrame, Self::Error>
        requires
            old(self).can_calibrate(sensor),
    ;

    /// The channel this reader serves.
    spec fn reader_channel(&self) -> TelemetryChannel;

    /// The reading this reader keeps, if any.
    spec fn kept_reading(&self) -> Option<TelemetryFrame>;

    fn channel(&self) -> (r: TelemetryChannel)
        ensures
            r == self.reader_channel(),
    ;

    fn last_reading(&self) -> (r: Option<TelemetryFrame>)
        ensures
            r == self.kept_reading(),
    ;
}

/// Bounded queue of up to `N` telemetry frames, drained when full.
pub struct TelemetryBus<const N: usize> {
    frames: [TelemetryFrame; N],
    len: usize,
}

impl<const N: usize> View for TelemetryBus<N> {
    type V = Seq<TelemetryFrame>;

    closed spec fn view(&self) -> Seq<TelemetryFrame> {
        self.frames@.take(self.len as int)
    }
}

impl<const N: usize> TelemetryBus<N> {
    #[verifier::type_invariant]
    spec fn bounded(&self) -> bool {
        self.len <= N
    }

    /// An empty queue.
    pub fn new() -> (r: Self)
        ensures
            r@ == Seq::<TelemetryFrame>::empty(),
    {
        let blank = TelemetryFrame {
            channel: TelemetryChannel::Voltage,
            timestamp_us: 0,
            value_i32: 0,
            value_u32: 0,
            flags: 0,
        };
        let r = TelemetryBus { frames: [blank; N], len: 0 };
        assert(r@ =~= Seq::<TelemetryFrame>::empty());
        r
    }

    /// Appends `frame` when there is room; a full queue drops it. Returns
    /// whether the frame was kept.
    pub fn push(&mut self, frame: TelemetryFrame) -> (r: bool)
        ensures
            r == (old(self)@.len() < N),
            final(self)@ == if r { old(self)@.push(frame) } else { old(self)@ },
            final(self)@.len() <= N,
    {
        proof {
            use_type_invariant(&*self);
        }
        if self.len < N {
            self.frames[self.len] = frame;
            self.len += 1;
            assert(self@ =~= old(self)@.push(frame));
            true
        } else {
            false
        }
    }

    /// Number of queued frames.
    pub fn len(&self) -> (r: usize)
        ensures
            r == self@.len(),
            r <= N,
    {
        proof {
            use_type_invariant(self);
        }
        self.len
    }

    /// Whether `N` frames are queued.
    pub fn is_full(&self) -> (r: bool)
        ensures
            r == (self@.len() >= N),
    {
        proof {
            use_type_invariant(self);
        }
        self.len >= N
    }

    /// Takes every queued frame, leaving the queue empty: the frames, oldest
    /// first, in the first `r.1` slots of `r.0`.
    pub fn drain(&mut self) -> (r: ([TelemetryFrame; N], usize))
        ensures
            r.0@.take(r.1 as int) == old(self)@,
            r.1 == old(self)@.len(),
            final(self)@ == Seq::<TelemetryFrame>::empty(),
    {
        proof {
            use_type_invariant(&*self);
        }
        let n = self.len;
        let frames = self.frames;
        self.len = 0;
        assert(self@ =~= Seq::<TelemetryFrame>::empty());
        (frames, n)
    }
}

/// A queue that holds at most `N` frames still does after a push, and a
/// push into a full queue changes nothing.
pub proof fn lemma_bus_bounded(before: Seq<TelemetryFrame>, frame: TelemetryFrame, n: nat)
    requires
        before.len() <= n,
    ensures
        (if before.len() < n { before.push(frame) } else { before }).len() <= n,
        before.len() == n ==> (if before.len() < n { before.push(frame) } else { before }) == before,
{
}

} // verus!
