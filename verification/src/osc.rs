//! The OSC side of the bridge: what is sent for one measurement.
//!
//! Every measurement becomes one bundle of nine messages, each with a fixed
//! address and a single argument, under a time tag in NTP 32.32 fixed point.
//! The bundle is built here as plain data; turning it into a datagram and
//! sending it is the caller's part.

use crate::measurement::{HeartRateMeasurement, Measurement};
use vstd::prelude::*;

verus! {

pub const ADDR_HR: &'static str = "/avatar/parameters/HR";

pub const ADDR_ONES_HR: &'static str = "/avatar/parameters/onesHR";

pub const ADDR_TENS_HR: &'static str = "/avatar/parameters/tensHR";

pub const ADDR_HUNDREDS_HR: &'static str = "/avatar/parameters/hundredsHR";

pub const ADDR_FLOAT_HR: &'static str = "/avatar/parameters/floatHR";

pub const ADDR_IS_HR_BEAT: &'static str = "/avatar/parameters/isHRBeat";

pub const ADDR_HEART_BEAT_TOGGLE: &'static str = "/avatar/parameters/HeartBeatToggle";

pub const ADDR_IS_HR_CONNECTED: &'static str = "/avatar/parameters/isHRConnected";

pub const ADDR_RR_INTERVAL: &'static str = "/avatar/parameters/RRInterval";

/// Seconds from 1900-01-01, where NTP time starts, to 1970-01-01.
pub const NTP_UNIX_OFFSET_SECONDS: u64 = 2_208_988_800;

/// Heart rate that the unit-range parameter shows as `1`.
pub const FLOAT_HR_FULL_SCALE: u16 = 255;

/// Milliseconds in a minute: the interval between beats at one beat per minute.
pub const MILLIS_PER_MINUTE: u16 = 60_000;

/// Why no bundle could be built.
#[derive(Clone, Copy, Debug, PartialEq, Eq)]
pub enum BridgeError {
    /// The clock is past the last second that a 32-bit NTP time tag can hold.
    ClockOverflow,
}

/// An NTP time tag: whole seconds since 1900-01-01 and a binary fraction of
/// a second in units of 2^-32 s.
#[derive(Clone, Copy, Debug, PartialEq, Eq)]
pub struct OscTime {
    pub seconds: u32,
    pub fractional: u32,
}

/// The single argument of a message.
#[derive(Clone, Copy, Debug, PartialEq, Eq)]
pub enum OscValue {
    /// Sent as a 32-bit integer.
    Int(i32),
    /// Sent as a boolean.
    Bool(bool),
    /// Sent as a 32-bit real: the quotient of the two integers. The
    /// denominator is positive.
    Ratio { numerator: i32, denominator: i32 },
}

/// One message: an address and its argument.
#[derive(Debug, PartialEq, Eq)]
pub struct OscMessage {
    pub addr: String,
    pub value: OscValue,
}

/// The mathematical value of an [`OscMessage`].
pub struct MessageView {
    pub addr: Seq<char>,
    pub value: OscValue,
}

impl View for OscMessage {
    type V = MessageView;

    open spec fn view(&self) -> MessageView {
        MessageView { addr: self.addr@, value: self.value }
    }
}

/// A time tag and the messages sent under it, in order.
#[derive(Debug, PartialEq, Eq)]
pub struct OscBundle {
    pub timetag: OscTime,
    pub content: Vec<OscMessage>,
}

/// The mathematical value of an [`OscBundle`].
pub struct BundleView {
    pub timetag: OscTime,
    pub content: Seq<MessageView>,
}

impl View for OscBundle {
    type V = BundleView;

    open spec fn view(&self) -> BundleView {
        BundleView {
            timetag: self.timetag,
            content: Seq::new(self.content@.len(), |i: int| self.content@[i]@),
        }
    }
}

/// Whole seconds since 1900-01-01 at `unix_millis` milliseconds since
/// 1970-01-01.
pub open spec fn ntp_seconds(unix_millis: u128) -> int {
    unix_millis / 1000 + NTP_UNIX_OFFSET_SECONDS
}

/// The milliseconds past the whole second, in units of 2^-32 s, rounded down.
pub open spec fn ntp_fraction(unix_millis: u128) -> int {
    (unix_millis % 1000) * 0x1_0000_0000 / 1000
}

/// The time tag for a clock reading, where the seconds fit in 32 bits.
pub open spec fn timetag_at(unix_millis: u128) -> Option<OscTime> {
    if ntp_seconds(unix_millis) <= u32::MAX {
        Some(
            OscTime {
                seconds: ntp_seconds(unix_millis) as u32,
                fractional: ntp_fraction(unix_millis) as u32,
            },
        )
    } else {
        None
    }
}

/// Converts a clock reading, in milliseconds since 1970-01-01, to a time tag.
///
/// Fails with `ClockOverflow` exactly when the seconds since 1900-01-01
/// exceed `u32::MAX`, which happens in 2036.
pub fn get_timetag(unix_millis: u128) -> (result: Result<OscTime, BridgeError>)
    ensures
        match timetag_at(unix_millis) {
            Some(tag) => result == Ok::<OscTime, BridgeError>(tag),
            None => result == Err::<OscTime, BridgeError>(BridgeError::ClockOverflow),
        },
{
    let unix_seconds = unix_millis / 1000;
    if unix_seconds > (u32::MAX as u64 - NTP_UNIX_OFFSET_SECONDS) as u128 {
        return Err(BridgeError::ClockOverflow);
    }
    let seconds = (unix_seconds + NTP_UNIX_OFFSET_SECONDS as u128) as u32;
    let fractional = ((unix_millis % 1000) * 0x1_0000_0000 / 1000) as u32;
    Ok(OscTime { seconds, fractional })
}

/// Sum of a sequence of intervals.
pub open spec fn rr_sum(intervals: Seq<u16>) -> int
    decreases intervals.len(),
{
    if intervals.len() == 0 {
        0
    } else {
        rr_sum(intervals.drop_last()) + intervals.last()
    }
}

/// The interval between beats, in milliseconds, that is reported for a
/// measurement: the mean of its R-R intervals, rounded down, where it has
/// any; else the estimate `60000 / heart_rate`, rounded down. A heart rate of
/// zero has no finite interval and gives `i32::MAX`.
pub open spec fn mean_rr_interval(m: Measurement) -> int {
    if m.rr_intervals.len() > 0 {
        rr_sum(m.rr_intervals) / (m.rr_intervals.len() as int)
    } else if m.heart_rate > 0 {
        MILLIS_PER_MINUTE as int / m.heart_rate as int
    } else {
        i32::MAX as int
    }
}

proof fn lemma_rr_sum_bounds(intervals: Seq<u16>)
    ensures
        0 <= rr_sum(intervals) <= 65535 * intervals.len(),
    decreases intervals.len(),
{
    if intervals.len() > 0 {
        lemma_rr_sum_bounds(intervals.drop_last());
    }
}

/// The reported interval is never negative and fits in 32 bits, so nothing
/// is cut off where it is sent as an integer. A mean of measured intervals
/// is no larger than the largest interval can be.
pub proof fn lemma_mean_rr_interval_bounds(m: Measurement)
    ensures
        0 <= mean_rr_interval(m) <= i32::MAX,
        m.rr_intervals.len() > 0 ==> mean_rr_interval(m) <= u16::MAX,
{
    if m.rr_intervals.len() > 0 {
        lemma_rr_sum_bounds(m.rr_intervals);
        let sum = rr_sum(m.rr_intervals);
        let count = m.rr_intervals.len() as int;
        assert(0 <= sum / count <= 65535) by (nonlinear_arith)
            requires
                0 <= sum <= 65535 * count,
                count > 0,
        ;
    }
}

/// Computes [`mean_rr_interval`].
///
/// Without R-R intervals the result is an estimate from the heart rate, not
/// a measured interval.
pub fn average_rr_interval(measurement: &HeartRateMeasurement) -> (average: i32)
    ensures
        average == mean_rr_interval(measurement@),
{
    let count = measurement.rr_intervals.len();
    if count > 0 {
        let mut sum: u128 = 0;
        let mut i: usize = 0;
        while i < count
            invariant
                count == measurement.rr_intervals@.len(),
                0 <= i <= count,
                sum == rr_sum(measurement.rr_intervals@.take(i as int)),
                sum <= 65535 * i,
            decreases count - i,
        {
            assert(measurement.rr_intervals@.take(i + 1).drop_last()
                =~= measurement.rr_intervals@.take(i as int));
            sum = sum + measurement.rr_intervals[i] as u128;
            i = i + 1;
        }
        assert(measurement.rr_intervals@.take(count as int) =~= measurement.rr_intervals@);
        let mean = sum / count as u128;
        assert(mean <= 65535) by (nonlinear_arith)
            requires
                mean == sum / count as u128,
                sum <= 65535 * count,
                count > 0,
        ;
        mean as i32
    } else if measurement.heart_rate > 0 {
        (MILLIS_PER_MINUTE / measurement.heart_rate) as i32
    } else {
        i32::MAX
    }
}

pub open spec fn ones_digit(heart_rate: u16) -> int {
    heart_rate as int % 10
}

pub open spec fn tens_digit(heart_rate: u16) -> int {
    (heart_rate as int % 100) / 10
}

/// Everything from the hundreds up: `heart_rate / 100`, which exceeds 9 from
/// 1000 beats per minute on.
pub open spec fn hundreds_digit(heart_rate: u16) -> int {
    heart_rate as int / 100
}

/// The heart rate on a scale where 0 is `-1` and 255 is `1`:
/// `heart_rate / 255 * 2 - 1`, as an exact quotient. Rates above 255 leave
/// the range; nothing is clamped.
pub open spec fn float_hr(heart_rate: u16) -> OscValue {
    OscValue::Ratio {
        numerator: (2 * heart_rate - FLOAT_HR_FULL_SCALE) as i32,
        denominator: FLOAT_HR_FULL_SCALE as i32,
    }
}

pub open spec fn message(addr: &str, value: OscValue) -> MessageView {
    MessageView { addr: addr@, value }
}

/// The nine messages sent for a measurement, in order, where `toggle` is the
/// heartbeat toggle that this send carries.
pub open spec fn heartrate_messages(m: Measurement, toggle: bool) -> Seq<MessageView> {
    seq![
        message(ADDR_HR, OscValue::Int(m.heart_rate as i32)),
        message(ADDR_ONES_HR, OscValue::Int(ones_digit(m.heart_rate) as i32)),
        message(ADDR_TENS_HR, OscValue::Int(tens_digit(m.heart_rate) as i32)),
        message(ADDR_HUNDREDS_HR, OscValue::Int(hundreds_digit(m.heart_rate) as i32)),
        message(ADDR_FLOAT_HR, float_hr(m.heart_rate)),
        message(ADDR_IS_HR_BEAT, OscValue::Bool(true)),
        message(ADDR_HEART_BEAT_TOGGLE, OscValue::Bool(toggle)),
        message(ADDR_IS_HR_CONNECTED, OscValue::Bool(true)),
        message(ADDR_RR_INTERVAL, OscValue::Int(mean_rr_interval(m) as i32)),
    ]
}

/// What a send yields: the bundle for `m` under the time tag of the clock
/// reading, carrying `toggle`; or `ClockOverflow` where the reading has no
/// time tag.
pub open spec fn sent_bundle(m: Measurement, toggle: bool, unix_millis: u128) -> Result<
    BundleView,
    BridgeError,
> {
    match timetag_at(unix_millis) {
        Some(tag) => Ok(BundleView { timetag: tag, content: heartrate_messages(m, toggle) }),
        None => Err(BridgeError::ClockOverflow),
    }
}

/// The mathematical value of a send's result.
pub open spec fn result_view(result: Result<OscBundle, BridgeError>) -> Result<
    BundleView,
    BridgeError,
> {
    match result {
        Ok(bundle) => Ok(bundle@),
        Err(e) => Err(e),
    }
}

fn new_message(addr: &str, value: OscValue) -> (m: OscMessage)
    ensures
        m@ == message(addr, value),
{
    OscMessage { addr: addr.to_owned(), value }
}

/// The sending side of the bridge. Its only state is the heartbeat toggle,
/// which flips with every send.
#[derive(Debug)]
pub struct VRCOSCClient {
    hr_flip_flop: bool,
}

impl VRCOSCClient {
    /// The toggle that the latest send carried; `false` before the first.
    pub closed spec fn flip_flop(&self) -> bool {
        self.hr_flip_flop
    }

    /// The client as one more send leaves it.
    pub closed spec fn after_send(self) -> Self {
        VRCOSCClient { hr_flip_flop: !self.hr_flip_flop }
    }

    /// The client as `n` sends in a row leave it.
    pub open spec fn after_sends(self, n: nat) -> Self
        decreases n,
    {
        if n == 0 {
            self
        } else {
            self.after_sends((n - 1) as nat).after_send()
        }
    }

    /// A send flips the toggle.
    pub proof fn lemma_after_send(self)
        ensures
            self.after_send().flip_flop() == !self.flip_flop(),
    {
    }

    /// The toggle alternates strictly from one send to the next, and on a new
    /// client the first send carries `true`: the `n`-th send, counted from
    /// one, carries `true` exactly when `n` is odd.
    pub proof fn lemma_toggle_alternates(self, n: nat)
        ensures
            self.after_sends(n + 1).flip_flop() == !self.after_sends(n).flip_flop(),
            !self.flip_flop() ==> self.after_sends(n).flip_flop() == (n % 2 == 1),
        decreases n,
    {
        if n > 0 {
            self.lemma_toggle_alternates((n - 1) as nat);
        }
    }

    pub fn new() -> (client: Self)
        ensures
            !client.flip_flop(),
    {
        VRCOSCClient { hr_flip_flop: false }
    }

    pub fn hr_flip_flop(&self) -> (toggle: bool)
        ensures
            toggle == self.flip_flop(),
    {
        self.hr_flip_flop
    }

    /// Builds the bundle that reports `heart_rate` at the clock reading
    /// `unix_millis`, in milliseconds since 1970-01-01.
    ///
    /// The toggle flips first, whatever follows, and the bundle carries its
    /// new value. The call fails exactly when the clock reading has no time
    /// tag; nothing is retried.
    pub fn send_heartrate(&mut self, heart_rate: &HeartRateMeasurement, unix_millis: u128) -> (result:
        Result<OscBundle, BridgeError>)
        ensures
            *final(self) == old(self).after_send(),
            final(self).flip_flop() == !old(self).flip_flop(),
            result_view(result) == sent_bundle(
                heart_rate@,
                final(self).flip_flop(),
                unix_millis,
            ),
    {
        self.hr_flip_flop = !self.hr_flip_flop;
        let hr = heart_rate.heart_rate;
        let average = average_rr_interval(heart_rate);
        let timetag = match get_timetag(unix_millis) {
            Ok(tag) => tag,
            Err(e) => {
                return Err(e);
            },
        };
        let mut content: Vec<OscMessage> = Vec::new();
        content.push(new_message(ADDR_HR, OscValue::Int(hr as i32)));
        content.push(new_message(ADDR_ONES_HR, OscValue::Int((hr % 10) as i32)));
        content.push(new_message(ADDR_TENS_HR, OscValue::Int((hr % 100 / 10) as i32)));
        content.push(new_message(ADDR_HUNDREDS_HR, OscValue::Int((hr / 100) as i32)));
        content.push(
            new_message(
                ADDR_FLOAT_HR,
                OscValue::Ratio {
                    numerator: 2 * (hr as i32) - FLOAT_HR_FULL_SCALE as i32,
                    denominator: FLOAT_HR_FULL_SCALE as i32,
                },
            ),
        );
        content.push(new_message(ADDR_IS_HR_BEAT, OscValue::Bool(true)));
        content.push(new_message(ADDR_HEART_BEAT_TOGGLE, OscValue::Bool(self.hr_flip_flop)));
        content.push(new_message(ADDR_IS_HR_CONNECTED, OscValue::Bool(true)));
        content.push(new_message(ADDR_RR_INTERVAL, OscValue::Int(average)));
        let bundle = OscBundle { timetag, content };
        assert(bundle@.content =~= heartrate_messages(heart_rate@, self.flip_flop()));
        Ok(bundle)
    }
}

} // verus!
