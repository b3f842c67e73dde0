//! Telemetry sensors and their conversion from raw ADC readings.

use vstd::prelude::*;

use crate::shared::calibration::signed_counts;
use crate::shared::telemetry::{spec_channel_index, TelemetryBus, TelemetryChannel, TelemetryFrame, TelemetryReader};

verus! {

/// Quotient of `a` by `b` rounded toward zero, as integer division does.
pub open spec fn tdiv(a: int, b: int) -> int {
    let q = abs(a) / abs(b);
    if (a < 0) != (b < 0) {
        -q
    } else {
        q
    }
}

pub open spec fn abs(a: int) -> int {
    if a < 0 {
        -a
    } else {
        a
    }
}

/// Divides rounding toward zero.
fn div_toward_zero(a: i64, b: i64) -> (r: i64)
    requires
        b != 0,
        a > i64::MIN,
        b > i64::MIN,
    ensures
        r == tdiv(a as int, b as int),
{
    let ua: u64 = if a < 0 { (-a) as u64 } else { a as u64 };
    let ub: u64 = if b < 0 { (-b) as u64 } else { b as u64 };
    let q = ua / ub;
    assert(q <= ua) by (nonlinear_arith)
        requires
            ub >= 1,
            q == ua / ub,
    ;
    if (a < 0) != (b < 0) {
        -(q as i64)
    } else {
        q as i64
    }
}

/// A voltage sensor: offset (in counts) and full-scale gain.
pub struct VoltageSensor {
    pub channel: TelemetryChannel,
    pub offset_mv: i32,
    pub gain: i32,
}

impl VoltageSensor {
    /// A sensor on `channel` with no offset and 12-bit full scale.
    pub fn new(channel: TelemetryChannel) -> (r: VoltageSensor)
        ensures
            r == (VoltageSensor { channel, offset_mv: 0, gain: 4095 }),
    {
        VoltageSensor { channel, offset_mv: 0, gain: 4095 }
    }

    pub fn with_calibration(channel: TelemetryChannel, offset_mv: i32, gain: i32) -> (r: VoltageSensor)
        ensures
            r == (VoltageSensor { channel, offset_mv, gain }),
    {
        VoltageSensor { channel, offset_mv, gain }
    }
}

/// A current sensor measured across a shunt of `shunt_mohm` milliohms.
pub struct CurrentSensor {
    pub channel: TelemetryChannel,
    pub shunt_mohm: u32,
}

/// A temperature sensor with a fixed offset in degrees Celsius.
pub struct TemperatureSensor {
    pub channel: TelemetryChannel,
    pub offset_celsius: i32,
}

impl TemperatureSensor {
    /// A sensor on `channel` with no offset.
    pub fn new(channel: TelemetryChannel) -> (r: TemperatureSensor)
        ensures
            r == (TemperatureSensor { channel, offset_celsius: 0 }),
    {
        TemperatureSensor { channel, offset_celsius: 0 }
    }
}

/// The real-time clock, reporting the uptime in microseconds.
pub struct RtcReader {
    pub uptime_us: u32,
}

/// ADC backend holding the latest raw reading of the first four channels.
pub struct AdcBackend {
    pub raw_values: [u32; 4],
}

/// Raw reading of `channel`: its entry in the table, or none past the table.
pub open spec fn raw_reading(b: AdcBackend, channel: TelemetryChannel) -> Option<u32> {
    let i = spec_channel_index(channel);
    if i < 4 {
        Some(b.raw_values@[i as int])
    } else {
        None
    }
}

/// Millivolts: (raw - offset) * 3300 / gain, rounded toward zero.
pub open spec fn voltage_mv(raw: u32, s: VoltageSensor) -> int {
    tdiv((signed_counts(raw) - s.offset_mv) * 3300, s.gain as int)
}

/// Microamperes: the shunt voltage (raw * 3.3 V / 4095, in microvolts, rounded
/// toward zero) times 1000 divided by the shunt resistance read as a signed
/// 32-bit value (rounded toward zero); zero without a shunt.
pub open spec fn current_ua(raw: u32, s: CurrentSensor) -> int {
    let uv = tdiv(signed_counts(raw) * 3_300_000, 4095);
    if s.shunt_mohm > 0 {
        tdiv(uv * 1000, signed_counts(s.shunt_mohm))
    } else {
        0
    }
}

/// Degrees Celsius: ((millivolts - 760) * 10 / 25) + offset, each division
/// rounded toward zero, millivolts being raw * 3300 / 4095.
pub open spec fn temperature_c(raw: u32, s: TemperatureSensor) -> int {
    tdiv((tdiv(signed_counts(raw) * 3300, 4095) - 760) * 10, 25) + s.offset_celsius
}

pub open spec fn fits_i32(x: int) -> bool {
    i32::MIN <= x <= i32::MAX
}

/// A frame for `channel` carrying `v` both as a signed value and as its
/// two's-complement unsigned bits, with zero timestamp and flags.
pub open spec fn value_frame(channel: TelemetryChannel, v: i32) -> TelemetryFrame {
    TelemetryFrame { channel, timestamp_us: 0, value_i32: v, value_u32: v as u32, flags: 0 }
}

/// What reading a voltage sensor gives: its frame, or an error past the table.
pub open spec fn voltage_reading(b: AdcBackend, s: VoltageSensor) -> Result<TelemetryFrame, ()> {
    match raw_reading(b, s.channel) {
        Some(raw) => Ok(value_frame(s.channel, voltage_mv(raw, s) as i32)),
        None => Err(()),
    }
}

/// What reading a temperature sensor gives: its frame, or an error past the table.
pub open spec fn temperature_reading(b: AdcBackend, s: TemperatureSensor) -> Result<TelemetryFrame, ()> {
    match raw_reading(b, s.channel) {
        Some(raw) => Ok(value_frame(s.channel, temperature_c(raw, s) as i32)),
        None => Err(()),
    }
}

fn read_table(b: &AdcBackend, channel: TelemetryChannel) -> (r: Result<u32, ()>)
    ensures
        r == match raw_reading(*b, channel) {
            Some(v) => Ok::<u32, ()>(v),
            None => Err(()),
        },
{
    let idx = channel.index();
    if idx < b.raw_values.len() {
        Ok(b.raw_values[idx])
    } else {
        Err(())
    }
}

fn signed_i64(raw: u32) -> (r: i64)
    ensures
        r == signed_counts(raw),
{
    if raw <= 0x7FFF_FFFF {
        raw as i64
    } else {
        raw as i64 - 0x1_0000_0000
    }
}

impl<'d> TelemetryReader<'d, VoltageSensor> for AdcBackend {
    type Error = ();

    open spec fn can_calibrate(&self, sensor: &VoltageSensor) -> bool {
        raw_reading(*self, sensor.channel) matches Some(raw) ==> sensor.gain != 0 && fits_i32(
            voltage_mv(raw, *sensor),
        )
    }

    /// The raw reading of the sensor's channel; an error past the table.
    fn read_raw(&mut self, sensor: &'d VoltageSensor) -> (r: Result<u32, ()>)
        ensures
            *final(self) == *old(self),
            r == match raw_reading(*old(self), sensor.channel) {
                Some(v) => Ok::<u32, ()>(v),
                None => Err(()),
            },
    {
        read_table(self, sensor.channel)
    }

    /// The reading converted to millivolts.
    fn read_calibrated(&mut self, sensor: &'d VoltageSensor) -> (r: Result<TelemetryFrame, ()>)
        ensures
            *final(self) == *old(self),
            r == voltage_reading(*old(self), *sensor),
    {
        let raw = self.read_raw(sensor)?;
        let num: i64 = (signed_i64(raw) - sensor.offset_mv as i64) * 3300;
        let mv = div_toward_zero(num, sensor.gain as i64) as i32;
        Ok(TelemetryFrame { channel: sensor.channel, timestamp_us: 0, value_i32: mv, value_u32: mv as u32, flags: 0 })
    }

    open spec fn reader_channel(&self) -> TelemetryChannel {
        TelemetryChannel::Voltage
    }

    /// The backend keeps no history.
    open spec fn kept_reading(&self) -> Option<TelemetryFrame> {
        None
    }

    fn channel(&self) -> TelemetryChannel {
        TelemetryChannel::Voltage
    }

    fn last_reading(&self) -> Option<TelemetryFrame> {
        None
    }
}

impl<'d> TelemetryReader<'d, CurrentSensor> for AdcBackend {
    type Error = ();

    open spec fn can_calibrate(&self, sensor: &CurrentSensor) -> bool {
        raw_reading(*self, sensor.channel) matches Some(raw) ==> fits_i32(current_ua(raw, *sensor))
    }

    /// The raw reading of the sensor's channel; an error past the table.
    fn read_raw(&mut self, sensor: &'d CurrentSensor) -> (r: Result<u32, ()>)
        ensures
            *final(self) == *old(self),
            r == match raw_reading(*old(self), sensor.channel) {
                Some(v) => Ok::<u32, ()>(v),
                None => Err(()),
            },
    {
        read_table(self, sensor.channel)
    }

    /// The reading converted to microamperes.
    fn read_calibrated(&mut self, sensor: &'d CurrentSensor) -> (r: Result<TelemetryFrame, ()>)
        ensures
            *final(self) == *old(self),
            r == match raw_reading(*old(self), sensor.channel) {
                Some(raw) => Ok::<TelemetryFrame, ()>(
                    value_frame(sensor.channel, current_ua(raw, *sensor) as i32),
                ),
                None => Err(()),
            },
    {
        let raw = self.read_raw(sensor)?;
        let uv = div_toward_zero(signed_i64(raw) * 3_300_000, 4095);
        let ua: i64 = if sensor.shunt_mohm > 0 {
            div_toward_zero(uv * 1000, signed_i64(sensor.shunt_mohm))
        } else {
            0
        };
        let v = ua as i32;
        Ok(TelemetryFrame { channel: sensor.channel, timestamp_us: 0, value_i32: v, value_u32: v as u32, flags: 0 })
    }

    open spec fn reader_channel(&self) -> TelemetryChannel {
        TelemetryChannel::Current
    }

    /// The backend keeps no history.
    open spec fn kept_reading(&self) -> Option<TelemetryFrame> {
        None
    }

    fn channel(&self) -> TelemetryChannel {
        TelemetryChannel::Current
    }

    fn last_reading(&self) -> Option<TelemetryFrame> {
        None
    }
}

impl<'d> TelemetryReader<'d, TemperatureSensor> for AdcBackend {
    type Error = ();

    open spec fn can_calibrate(&self, sensor: &TemperatureSensor) -> bool {
        raw_reading(*self, sensor.channel) matches Some(raw) ==> fits_i32(temperature_c(raw, *sensor))
    }

    /// The raw reading of the sensor's channel; an error past the table.
    fn read_raw(&mut self, sensor: &'d TemperatureSensor) -> (r: Result<u32, ()>)
        ensures
            *final(self) == *old(self),
            r == match raw_reading(*old(self), sensor.channel) {
                Some(v) => Ok::<u32, ()>(v),
                None => Err(()),
            },
    {
        read_table(self, sensor.channel)
    }

    /// The reading converted to degrees Celsius.
    fn read_calibrated(&mut self, sensor: &'d TemperatureSensor) -> (r: Result<TelemetryFrame, ()>)
        ensures
            *final(self) == *old(self),
            r == temperature_reading(*old(self), *sensor),
    {
        let raw = self.read_raw(sensor)?;
        let mv = div_toward_zero(signed_i64(raw) * 3300, 4095);
        let t = div_toward_zero((mv - 760) * 10, 25) + sensor.offset_celsius as i64;
        let v = t as i32;
        Ok(TelemetryFrame { channel: sensor.channel, timestamp_us: 0, value_i32: v, value_u32: v as u32, flags: 0 })
    }

    open spec fn reader_channel(&self) -> TelemetryChannel {
        TelemetryChannel::Temperature
    }

    /// The backend keeps no history.
    open spec fn kept_reading(&self) -> Option<TelemetryFrame> {
        None
    }

    fn channel(&self) -> TelemetryChannel {
        TelemetryChannel::Temperature
    }

    fn last_reading(&self) -> Option<TelemetryFrame> {
        None
    }
}

impl<'d> TelemetryReader<'d, RtcReader> for AdcBackend {
    type Error = ();

    open spec fn can_calibrate(&self, sensor: &RtcReader) -> bool {
        true
    }

    /// The clock has no raw reading: always zero.
    fn read_raw(&mut self, _sensor: &'d RtcReader) -> (r: Result<u32, ()>)
        ensures
            *final(self) == *old(self),
            r == Ok::<u32, ()>(0),
    {
        Ok(0)
    }

    /// A clock frame stamped with the uptime, which is also its value.
    fn read_calibrated(&mut self, sensor: &'d RtcReader) -> (r: Result<TelemetryFrame, ()>)
        ensures
            *final(self) == *old(self),
            r == Ok::<TelemetryFrame, ()>(TelemetryFrame {
                channel: TelemetryChannel::Rtc,
                timestamp_us: sensor.uptime_us,
                value_i32: sensor.uptime_us as i32,
                value_u32: sensor.uptime_us,
                flags: 0,
            }),
    {
        Ok(TelemetryFrame {
            channel: TelemetryChannel::Rtc,
            timestamp_us: sensor.uptime_us,
            value_i32: sensor.uptime_us as i32,
            value_u32: sensor.uptime_us,
            flags: 0,
        })
    }

    open spec fn reader_channel(&self) -> TelemetryChannel {
        TelemetryChannel::Rtc
    }

    /// The backend keeps no history.
    open spec fn kept_reading(&self) -> Option<TelemetryFrame> {
        None
    }

    fn channel(&self) -> TelemetryChannel {
        TelemetryChannel::Rtc
    }

    fn last_reading(&self) -> Option<TelemetryFrame> {
        None
    }
}

/// `q` after pushing the frame of `reading` (if any) onto a queue of capacity `n`.
pub open spec fn queued(q: Seq<TelemetryFrame>, reading: Result<TelemetryFrame, ()>, n: nat) -> Seq<TelemetryFrame> {
    match reading {
        Ok(f) => if q.len() < n {
            q.push(f)
        } else {
            q
        },
        Err(_) => q,
    }
}

/// One tick of the telemetry task: reads the voltage sensor, then the
/// temperature sensor, queues each frame read, and when the queue is full
/// takes every queued frame out (oldest first, in the first `r.1` slots).
pub fn telemetry_tick<const N: usize>(
    bus: &mut TelemetryBus<N>,
    backend: &mut AdcBackend,
    voltage: &VoltageSensor,
    temp: &TemperatureSensor,
) -> (r: Option<([TelemetryFrame; N], usize)>)
    requires
        old(backend).can_calibrate(voltage),
        old(backend).can_calibrate(temp),
    ensures
        *final(backend) == *old(backend),
        ({
            let q = queued(
                queued(old(bus)@, voltage_reading(*old(backend), *voltage), N as nat),
                temperature_reading(*old(backend), *temp),
                N as nat,
            );
            if q.len() >= N {
                r matches Some((frames, n)) && n == q.len() && frames@.take(n as int) == q
                    && final(bus)@ == Seq::<TelemetryFrame>::empty()
            } else {
                r is None && final(bus)@ == q
            }
        }),
{
    if let Ok(frame) = TelemetryReader::<VoltageSensor>::read_calibrated(backend, voltage) {
        bus.push(frame);
    }
    if let Ok(frame) = TelemetryReader::<TemperatureSensor>::read_calibrated(backend, temp) {
        bus.push(frame);
    }
    if bus.is_full() {
        Some(bus.drain())
    } else {
        None
    }
}

/// `q` is `a / b` rounded toward zero: the largest size whose multiple of
/// |b| stays within |a|, with the sign of the quotient (zero when |a| < |b|).
pub open spec fn rounds_toward_zero(q: int, a: int, b: int) -> bool {
    &&& abs(q) * abs(b) <= abs(a) < (abs(q) + 1) * abs(b)
    &&& (a >= 0) == (b > 0) ==> q >= 0
    &&& (a >= 0) != (b > 0) ==> q <= 0
}

/// The truncating quotient rounds toward zero; a quotient whose dividend is
/// within `m` times the divisor is within `m`.
proof fn lemma_tdiv_bounds(a: int, b: int, m: int)
    requires
        b != 0,
    ensures
        rounds_toward_zero(tdiv(a, b), a, b),
        abs(a) <= m * abs(b) ==> abs(tdiv(a, b)) <= m,
{
    let aa = abs(a);
    let ab = abs(b);
    let q = aa / ab;
    assert(q * ab <= aa < (q + 1) * ab && q >= 0) by (nonlinear_arith)
        requires
            ab > 0,
            aa >= 0,
            q == aa / ab,
    ;
    assert(aa <= m * ab ==> q <= m) by (nonlinear_arith)
        requires
            ab > 0,
            q * ab <= aa,
    ;
}

/// The offset-free part of a temperature reading stays within 900 million
/// degrees, whatever the raw reading.
proof fn lemma_temperature_core_bound(raw: u32)
    ensures
        abs(tdiv((tdiv(signed_counts(raw) * 3300, 4095) - 760) * 10, 25)) <= 900_000_000,
{
    let c = signed_counts(raw);
    let mv = tdiv(c * 3300, 4095);
    lemma_tdiv_bounds(c * 3300, 4095, 0);
    assert(abs(mv) <= abs(c)) by (nonlinear_arith)
        requires
            abs(mv) * 4095 <= abs(c * 3300),
            abs(c * 3300) == abs(c) * 3300,
    ;
    let n = (mv - 760) * 10;
    lemma_tdiv_bounds(n, 25, 900_000_000);
}

/// A temperature reading moves one for one with the sensor's calibration
/// offset: two sensors on the same channel whose offsets are within a
/// billion degrees read values that differ by exactly the difference of
/// their offsets.
pub proof fn lemma_temperature_offset_shift(b: AdcBackend, s1: TemperatureSensor, s2: TemperatureSensor)
    requires
        s1.channel == s2.channel,
        raw_reading(b, s1.channel) is Some,
        -1_000_000_000 <= s1.offset_celsius <= 1_000_000_000,
        -1_000_000_000 <= s2.offset_celsius <= 1_000_000_000,
    ensures
        temperature_reading(b, s1) matches Ok(f1) && temperature_reading(b, s2) matches Ok(f2) && f2.value_i32
            - f1.value_i32 == s2.offset_celsius - s1.offset_celsius,
{
    let raw = raw_reading(b, s1.channel)->0;
    lemma_temperature_core_bound(raw);
}

/// A voltage reading is the millivolt value (raw counts, read as signed,
/// less the offset, times 3300) divided by the gain and rounded toward zero,
/// whenever that quotient fits an `i32`.
pub proof fn lemma_voltage_rounds_toward_zero(b: AdcBackend, s: VoltageSensor)
    requires
        raw_reading(b, s.channel) is Some,
        s.gain != 0,
        abs((signed_counts(raw_reading(b, s.channel)->0) - s.offset_mv) * 3300) <= i32::MAX * abs(s.gain as int),
    ensures
        voltage_reading(b, s) matches Ok(f) && f.channel == s.channel && rounds_toward_zero(
            f.value_i32 as int,
            (signed_counts(raw_reading(b, s.channel)->0) - s.offset_mv) * 3300,
            s.gain as int,
        ),
{
    let raw = raw_reading(b, s.channel)->0;
    let n = (signed_counts(raw) - s.offset_mv) * 3300;
    lemma_tdiv_bounds(n, s.gain as int, i32::MAX as int);
}

/// Current readings: without a shunt (zero milliohms) the reading is zero.
/// With a shunt the reading is the shunt voltage in microvolts (raw counts,
/// read as signed, times 3.3 V over 4095, rounded toward zero) times 1000,
/// divided by the shunt resistance read as signed and rounded toward zero.
pub proof fn lemma_current_rounds_toward_zero(raw: u32, s: CurrentSensor)
    ensures
        s.shunt_mohm == 0 ==> current_ua(raw, s) == 0,
        s.shunt_mohm > 0 ==> exists|uv: int|
            #[trigger] rounds_toward_zero(uv, signed_counts(raw) * 3_300_000, 4095) && rounds_toward_zero(
                current_ua(raw, s),
                uv * 1000,
                signed_counts(s.shunt_mohm),
            ),
{
    if s.shunt_mohm > 0 {
        let uv = tdiv(signed_counts(raw) * 3_300_000, 4095);
        lemma_tdiv_bounds(signed_counts(raw) * 3_300_000, 4095, 0);
        lemma_tdiv_bounds(uv * 1000, signed_counts(s.shunt_mohm), 0);
    }
}

} // verus!
