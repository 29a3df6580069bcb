//! Frame timing: the clock that measures each frame, the histogram that
//! collects the frame durations, and the report drawn from it once the
//! reporting interval has passed.
//!
//! Times are whole nanoseconds on a clock of the caller's choosing; the
//! histogram holds whole microseconds.

use vstd::multiset::Multiset;
use vstd::prelude::*;

verus! {

/// The `histogram` crate's bucketed histogram, carried as an opaque value.
#[verifier::external_type_specification]
#[verifier::external_body]
pub struct ExHistogram(histogram::Histogram);

/// The values given to a histogram since it was made or last cleared, each as
/// often as it was given. Values that the histogram turned away as too large
/// are among them: it counts those too.
pub uninterp spec fn recorded(h: &histogram::Histogram) -> Multiset<u64>;

/// Whether a histogram has the configuration that `Histogram::new` gives:
/// three significant figures, and 60 000 000 000 as the largest value.
pub uninterp spec fn default_made(h: &histogram::Histogram) -> bool;

/// What `Histogram::minimum` answers for a histogram of the default
/// configuration that was given `samples`.
pub uninterp spec fn minimum_of(samples: Multiset<u64>) -> Option<u64>;

/// What `Histogram::maximum` answers for a histogram of the default
/// configuration that was given `samples`.
pub uninterp spec fn maximum_of(samples: Multiset<u64>) -> Option<u64>;

/// What `Histogram::mean` answers for a histogram of the default
/// configuration that was given `samples`.
pub uninterp spec fn mean_of(samples: Multiset<u64>) -> Option<u64>;

/// What `Histogram::stddev` answers for a histogram of the default
/// configuration that was given `samples`.
pub uninterp spec fn stddev_of(samples: Multiset<u64>) -> Option<u64>;

/// What `Histogram::percentile` answers, asked for `percent` percent, for a
/// histogram of the default configuration that was given `samples`.
pub uninterp spec fn percentile_of(samples: Multiset<u64>, percent: u8) -> Option<u64>;

/// The largest value that a histogram with the default configuration takes.
pub const HISTOGRAM_LIMIT: u64 = 60_000_000_000;

/// The time between two reports, in nanoseconds: one second.
pub const REPORT_INTERVAL: u64 = 1_000_000_000;

/// `Histogram::new`: a histogram with the default configuration, which has
/// been given nothing yet.
#[verifier::external_body]
fn histogram_new() -> (h: histogram::Histogram)
    ensures
        default_made(&h),
        recorded(&h) == Multiset::<u64>::empty(),
{
    histogram::Histogram::new()
}

/// `Histogram::increment` on a histogram of the default configuration: gives
/// the histogram one value. The histogram counts the value in any case, and
/// accepts it into a bucket exactly when it is no larger than the configured
/// limit, which is 60 000 000 000 by default. The call does not panic: every
/// accepted value has a bucket.
#[verifier::external_body]
fn histogram_increment(h: &mut histogram::Histogram, value: u64) -> (accepted: bool)
    requires
        default_made(old(h)),
    ensures
        default_made(final(h)),
        recorded(final(h)) == recorded(old(h)).insert(value),
        accepted == (value <= 60_000_000_000u64),
    no_unwind
{
    h.increment(value).is_ok()
}

/// `Histogram::entries`: how many values the histogram was given since it was
/// made or last cleared, a count that stops growing at the largest `u64`.
#[verifier::external_body]
fn histogram_entries(h: &histogram::Histogram) -> (n: u64)
    ensures
        n == if recorded(h).len() <= u64::MAX {
            recorded(h).len()
        } else {
            u64::MAX as nat
        },
{
    h.entries()
}

/// `Histogram::minimum`, with an error turned into `None`. For a histogram of
/// the default configuration the answer depends on the values given alone.
#[verifier::external_body]
fn histogram_minimum(h: &histogram::Histogram) -> (r: Option<u64>)
    requires
        default_made(h),
    ensures
        r == minimum_of(recorded(h)),
{
    h.minimum().ok()
}

/// `Histogram::maximum`, with an error turned into `None`. For a histogram of
/// the default configuration the answer depends on the values given alone.
#[verifier::external_body]
fn histogram_maximum(h: &histogram::Histogram) -> (r: Option<u64>)
    requires
        default_made(h),
    ensures
        r == maximum_of(recorded(h)),
{
    h.maximum().ok()
}

/// `Histogram::mean`, the histogram's approximation of the arithmetic mean,
/// with an error turned into `None`. For a histogram of the default
/// configuration the answer depends on the values given alone. The only
/// error is that of a histogram which was given nothing.
#[verifier::external_body]
fn histogram_mean(h: &histogram::Histogram) -> (r: Option<u64>)
    requires
        default_made(h),
    ensures
        r == mean_of(recorded(h)),
        r is Some <==> recorded(h).len() > 0,
{
    h.mean().ok()
}

/// `Histogram::stddev`, the histogram's approximation of the standard
/// deviation. For a histogram of the default configuration the answer depends
/// on the values given alone. It is `None` exactly for a histogram which was
/// given nothing.
#[verifier::external_body]
fn histogram_stddev(h: &histogram::Histogram) -> (r: Option<u64>)
    requires
        default_made(h),
    ensures
        r == stddev_of(recorded(h)),
        r is Some <==> recorded(h).len() > 0,
{
    h.stddev()
}

/// `Histogram::percentile`, asked for `percent` percent, with an error turned
/// into `None`. For a histogram of the default configuration the answer
/// depends on the values given and on `percent` alone.
#[verifier::external_body]
fn histogram_percentile(h: &histogram::Histogram, percent: u8) -> (r: Option<u64>)
    requires
        default_made(h),
    ensures
        r == percentile_of(recorded(h), percent),
{
    h.percentile(percent.into()).ok()
}

/// `Histogram::clear`: empties the histogram and leaves its configuration as
/// it is. The call does not panic.
#[verifier::external_body]
fn histogram_clear(h: &mut histogram::Histogram)
    ensures
        default_made(final(h)) == default_made(old(h)),
        recorded(final(h)) == Multiset::<u64>::empty(),
    no_unwind
{
    h.clear()
}

/// The statistics of the frames of one reporting interval. Durations are in
/// microseconds; a statistic that the histogram could not give is `None`.
#[derive(Clone, Copy, Debug, PartialEq, Eq, Structural)]
pub struct FrameReport {
    /// How many frames the interval held.
    pub frames: u64,
    /// How long the interval was, in nanoseconds.
    pub elapsed_nanos: u64,
    /// The shortest frame.
    pub minimum: Option<u64>,
    /// The mean frame.
    pub mean: Option<u64>,
    /// The frame at 95 percent.
    pub percentile_95: Option<u64>,
    /// The frame at 99 percent.
    pub percentile_99: Option<u64>,
    /// The longest frame.
    pub maximum: Option<u64>,
    /// The standard deviation.
    pub stddev: Option<u64>,
}

impl FrameReport {
    /// What every report has: at least one frame, a mean and a standard
    /// deviation.
    pub open spec fn founded(self) -> bool {
        &&& self.frames >= 1
        &&& self.mean is Some
        &&& self.stddev is Some
    }
}

/// What one tick of the clock tells the caller.
#[derive(Clone, Copy, Debug, PartialEq, Eq, Structural)]
pub struct FrameTick {
    /// The time since the previous tick, in nanoseconds: the frame's duration.
    pub elapsed_nanos: u64,
    /// Whether the histogram accepted the frame's duration.
    pub accepted: bool,
    /// The report, where this tick ends a reporting interval.
    pub report: Option<FrameReport>,
}

/// The clock's state as contracts see it.
pub ghost struct ClockState {
    /// When the previous tick happened.
    pub last_frame: u64,
    /// When the current reporting interval began.
    pub last_second: u64,
    /// The frame durations of the current interval, in microseconds.
    pub samples: Multiset<u64>,
}

/// How far `now` lies after `then`, and zero where it does not.
pub open spec fn since(now: u64, then: u64) -> u64 {
    if now >= then {
        (now - then) as u64
    } else {
        0
    }
}

/// The number of samples as the histogram counts them.
pub open spec fn counted(samples: Multiset<u64>) -> u64 {
    if samples.len() <= u64::MAX {
        samples.len() as u64
    } else {
        u64::MAX
    }
}

/// The report on an interval of `elapsed_nanos` with the frames `samples`.
pub open spec fn report_of(samples: Multiset<u64>, elapsed_nanos: u64) -> FrameReport {
    FrameReport {
        frames: counted(samples),
        elapsed_nanos,
        minimum: minimum_of(samples),
        mean: mean_of(samples),
        percentile_95: percentile_of(samples, 95),
        percentile_99: percentile_of(samples, 99),
        maximum: maximum_of(samples),
        stddev: stddev_of(samples),
    }
}

/// The frame duration, in microseconds, that a tick at `now` records.
pub open spec fn frame_micros(state: ClockState, now: u64) -> u64 {
    since(now, state.last_frame) / 1000
}

/// Whether a tick at `now` ends the reporting interval: more than a second
/// has passed since it began.
pub open spec fn interval_over(state: ClockState, now: u64) -> bool {
    since(now, state.last_second) > REPORT_INTERVAL
}

/// The clock after a tick at `now`.
pub open spec fn clock_after(state: ClockState, now: u64) -> ClockState {
    if interval_over(state, now) {
        ClockState { last_frame: now, last_second: now, samples: Multiset::empty() }
    } else {
        ClockState {
            last_frame: now,
            last_second: state.last_second,
            samples: state.samples.insert(frame_micros(state, now)),
        }
    }
}

/// What a tick at `now` tells the caller.
pub open spec fn clock_tick(state: ClockState, now: u64) -> FrameTick {
    FrameTick {
        elapsed_nanos: since(now, state.last_frame),
        accepted: frame_micros(state, now) <= HISTOGRAM_LIMIT,
        report: if interval_over(state, now) {
            Some(
                report_of(
                    state.samples.insert(frame_micros(state, now)),
                    since(now, state.last_second),
                ),
            )
        } else {
            None
        },
    }
}

/// Measures frames and collects their durations.
pub struct FrameClock {
    last_frame: u64,
    last_second: u64,
    times: histogram::Histogram,
}

impl View for FrameClock {
    type V = ClockState;

    closed spec fn view(&self) -> ClockState {
        ClockState {
            last_frame: self.last_frame,
            last_second: self.last_second,
            samples: recorded(&self.times),
        }
    }
}

impl FrameClock {
    #[verifier::type_invariant]
    spec fn inv(self) -> bool {
        default_made(&self.times)
    }

    /// A clock started at `now`, with no frame measured yet.
    pub fn new(now: u64) -> (clock: FrameClock)
        ensures
            clock@ == (ClockState {
                last_frame: now,
                last_second: now,
                samples: Multiset::empty(),
            }),
    {
        FrameClock { last_frame: now, last_second: now, times: histogram_new() }
    }

    /// Marks a frame boundary at `now`. The time since the previous tick is
    /// the frame's duration; its whole microseconds go into the histogram.
    /// Where more than a second has passed since the interval began, the tick
    /// reports on the interval, this frame included, and starts a new one. A
    /// `now` that lies before the previous tick counts as no time passed.
    pub fn tick(&mut self, now: u64) -> (out: FrameTick)
        ensures
            out == clock_tick(old(self)@, now),
            final(self)@ == clock_after(old(self)@, now),
            out.report matches Some(report) ==> report.founded(),
    {
        proof {
            use_type_invariant(&*self);
        }
        let elapsed_nanos = now.saturating_sub(self.last_frame);
        let accepted = histogram_increment(&mut self.times, elapsed_nanos / 1000);
        let interval = now.saturating_sub(self.last_second);
        let report = if interval > REPORT_INTERVAL {
            let report = FrameReport {
                frames: histogram_entries(&self.times),
                elapsed_nanos: interval,
                minimum: histogram_minimum(&self.times),
                mean: histogram_mean(&self.times),
                percentile_95: histogram_percentile(&self.times, 95),
                percentile_99: histogram_percentile(&self.times, 99),
                maximum: histogram_maximum(&self.times),
                stddev: histogram_stddev(&self.times),
            };
            self.last_second = now;
            histogram_clear(&mut self.times);
            Some(report)
        } else {
            None
        };
        self.last_frame = now;
        FrameTick { elapsed_nanos, accepted, report }
    }
}

} // verus!
