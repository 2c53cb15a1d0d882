//! Limits on how often one sender may print: five prints in five minutes,
//! fifteen in an hour and thirty in a day.
//!
//! The counting is done by the `brakes` crate, with a sliding window for
//! each limit. Whether a limit is exceeded depends on the clock and on what
//! was counted before, so nothing is stated of it here but which limit is
//! asked first and what is answered.

use vstd::prelude::*;

verus! {

/// The rate limiter of the `brakes` crate, carried through unread.
#[verifier::external_type_specification]
#[verifier::external_body]
#[verifier::reject_recursive_types(T)]
#[verifier::reject_recursive_types(B)]
pub struct ExRateLimiter<T, B>(brakes::RateLimiter<T, B>);

/// The sliding window counter of the `brakes` crate, carried through
/// unread.
#[verifier::external_type_specification]
#[verifier::external_body]
pub struct ExSlidingWindowCounter(brakes::types::sliding_window::SlidingWindowCounter);

/// The in-memory store of the `brakes` crate, carried through unread.
#[verifier::external_type_specification]
#[verifier::external_body]
pub struct ExMemory(brakes::backend::local::Memory);

/// The limit that a limiter was made with: how many hits it lets through,
/// and in a window of how many seconds.
pub uninterp spec fn limit_of(
    limiter: brakes::RateLimiter<
        brakes::types::sliding_window::SlidingWindowCounter,
        brakes::backend::local::Memory,
    >,
) -> (u32, u64);

/// Builds a limiter with `RateLimiter::builder`, an empty `Memory` store
/// and `SlidingWindowCounter::new(threshold, Duration::from_secs(seconds))`.
/// Trusted: the limiter keeps the limit that it was given.
#[verifier::external_body]
fn sliding_window_limiter(threshold: u32, seconds: u64) -> (limiter: brakes::RateLimiter<
    brakes::types::sliding_window::SlidingWindowCounter,
    brakes::backend::local::Memory,
>)
    ensures
        limit_of(limiter) == (threshold, seconds),
{
    let window = std::time::Duration::from_secs(seconds);
    brakes::RateLimiter::builder()
        .with_backend(brakes::backend::local::Memory::new())
        .with_limiter(brakes::types::sliding_window::SlidingWindowCounter::new(threshold, window))
        .build()
}

/// The longest window, in seconds, that a limiter may be asked with. The
/// counter takes the length of its window from the time since 1970, in
/// milliseconds, and so must not be asked with a window longer than that
/// time.
pub const LONGEST_WINDOW: u64 = 1_000_000_000;

/// Calls `RateLimiter::is_ratelimited`, which counts a hit for `key` unless
/// its limit is exceeded, and says whether it reported an error. The
/// answer depends on the clock and on earlier hits: nothing is promised of
/// it.
#[verifier::external_body]
fn is_exceeded(
    limiter: &brakes::RateLimiter<
        brakes::types::sliding_window::SlidingWindowCounter,
        brakes::backend::local::Memory,
    >,
    key: &str,
) -> (exceeded: bool)
    requires
        limit_of(*limiter).1 <= LONGEST_WINDOW,
{
    limiter.is_ratelimited(key).is_err()
}

/// Calls `RateLimiter::get_usage` and formats what it returns for
/// debugging. Nothing is promised of the text.
#[verifier::external_body]
fn usage_of(
    limiter: &brakes::RateLimiter<
        brakes::types::sliding_window::SlidingWindowCounter,
        brakes::backend::local::Memory,
    >,
    key: &str,
) -> (usage: String) {
    format!("{:?}", limiter.get_usage(key))
}

/// The windows over which prints are counted.
#[derive(Debug, Clone, Copy, PartialEq, Eq, Structural)]
pub enum Window {
    FiveMinutes,
    Hour,
    Day,
}

impl Window {
    /// How many prints a sender may make in the window.
    pub open spec fn spec_threshold(self) -> u32 {
        match self {
            Window::FiveMinutes => 5,
            Window::Hour => 15,
            Window::Day => 30,
        }
    }

    /// How many prints a sender may make in the window.
    #[verifier::when_used_as_spec(spec_threshold)]
    pub fn threshold(self) -> (threshold: u32)
        ensures
            threshold == self.spec_threshold(),
    {
        match self {
            Window::FiveMinutes => 5,
            Window::Hour => 15,
            Window::Day => 30,
        }
    }

    /// The length of the window in seconds.
    pub open spec fn spec_seconds(self) -> u64 {
        match self {
            Window::FiveMinutes => 300,
            Window::Hour => 3600,
            Window::Day => 86400,
        }
    }

    /// The length of the window in seconds.
    #[verifier::when_used_as_spec(spec_seconds)]
    pub fn seconds(self) -> (seconds: u64)
        ensures
            seconds == self.spec_seconds(),
    {
        match self {
            Window::FiveMinutes => 5 * 60,
            Window::Hour => 60 * 60,
            Window::Day => 24 * 60 * 60,
        }
    }

    /// The limit of the window: its threshold and its length in seconds.
    pub open spec fn limit(self) -> (u32, u64) {
        (self.threshold(), self.seconds())
    }

    /// What a sender who exceeded the limit of the window is refused with.
    pub open spec fn refusal_text(self) -> Seq<char> {
        match self {
            Window::FiveMinutes => "5-minute rate limit exceeded"@,
            Window::Hour => "Hourly rate limit exceeded"@,
            Window::Day => "Daily rate limit exceeded"@,
        }
    }

    /// What a sender who exceeded the limit of the window is refused with.
    pub fn refusal(self) -> (text: String)
        ensures
            text@ == self.refusal_text(),
    {
        match self {
            Window::FiveMinutes => "5-minute rate limit exceeded".to_owned(),
            Window::Hour => "Hourly rate limit exceeded".to_owned(),
            Window::Day => "Daily rate limit exceeded".to_owned(),
        }
    }
}

/// Whether `verdict` is the answer to a sender for whom `exceeded` is the
/// shortest window whose limit is exceeded: leave to print where there is
/// none, else the refusal of that window.
pub open spec fn is_verdict(verdict: Result<(), String>, exceeded: Option<Window>) -> bool {
    match exceeded {
        Some(window) => verdict is Err && verdict.unwrap_err()@ == window.refusal_text(),
        None => verdict is Ok,
    }
}

/// Answers a sender for whom `exceeded` is the shortest window whose limit
/// is exceeded.
pub fn verdict_for(exceeded: Option<Window>) -> (verdict: Result<(), String>)
    ensures
        is_verdict(verdict, exceeded),
{
    match exceeded {
        Some(window) => Err(window.refusal()),
        None => Ok(()),
    }
}

/// The report of a sender's usage in the three windows.
pub open spec fn usage_text(five_minutes: Seq<char>, hour: Seq<char>, day: Seq<char>) -> Seq<
    char,
> {
    "5min: "@ + five_minutes + ", 1hour: "@ + hour + ", 1day: "@ + day
}

/// Puts the usage in the three windows into one line.
pub fn usage_report(five_minutes: &str, hour: &str, day: &str) -> (report: String)
    ensures
        report@ == usage_text(five_minutes@, hour@, day@),
{
    let mut report = "5min: ".to_owned();
    report.push_str(five_minutes);
    report.push_str(", 1hour: ");
    report.push_str(hour);
    report.push_str(", 1day: ");
    report.push_str(day);
    report
}

/// The three limits on one sender's prints.
pub struct MultiRateLimiter {
    limiter_5min: brakes::RateLimiter<
        brakes::types::sliding_window::SlidingWindowCounter,
        brakes::backend::local::Memory,
    >,
    limiter_1hour: brakes::RateLimiter<
        brakes::types::sliding_window::SlidingWindowCounter,
        brakes::backend::local::Memory,
    >,
    limiter_1day: brakes::RateLimiter<
        brakes::types::sliding_window::SlidingWindowCounter,
        brakes::backend::local::Memory,
    >,
}

impl MultiRateLimiter {
    /// The limit that is kept for a window.
    pub closed spec fn limit(&self, window: Window) -> (u32, u64) {
        match window {
            Window::FiveMinutes => limit_of(self.limiter_5min),
            Window::Hour => limit_of(self.limiter_1hour),
            Window::Day => limit_of(self.limiter_1day),
        }
    }

    #[verifier::type_invariant]
    spec fn keeps_its_limits(&self) -> bool {
        &&& self.limit(Window::FiveMinutes) == Window::FiveMinutes.limit()
        &&& self.limit(Window::Hour) == Window::Hour.limit()
        &&& self.limit(Window::Day) == Window::Day.limit()
    }

    /// Limiters that have counted nothing, one for each window, each with
    /// the threshold and the length of its window.
    pub fn new() -> (limiters: MultiRateLimiter)
        ensures
            forall|window: Window| #[trigger] limiters.limit(window) == window.limit(),
    {
        MultiRateLimiter {
            limiter_5min: sliding_window_limiter(
                Window::FiveMinutes.threshold(),
                Window::FiveMinutes.seconds(),
            ),
            limiter_1hour: sliding_window_limiter(Window::Hour.threshold(), Window::Hour.seconds()),
            limiter_1day: sliding_window_limiter(Window::Day.threshold(), Window::Day.seconds()),
        }
    }

    /// Counts a print for `key` in each window, from the shortest to the
    /// longest, until one says that its limit is exceeded: that window is
    /// returned, and the longer ones are not asked and count nothing.
    /// Which window refuses, if any, lies with the clock and with what was
    /// counted before.
    pub fn first_exceeded(&self, key: &str) -> (exceeded: Option<Window>) {
        proof {
            use_type_invariant(self);
        }
        let five_minutes = is_exceeded(&self.limiter_5min, key);
        let hour = !five_minutes && is_exceeded(&self.limiter_1hour, key);
        let day = !five_minutes && !hour && is_exceeded(&self.limiter_1day, key);
        shortest_exceeded(five_minutes, hour, day)
    }

    /// Counts a print for `key`, unless a limit is exceeded: then the print
    /// is refused with the text of the shortest window whose limit is
    /// exceeded.
    pub fn check_rate_limit(&self, key: &str) -> (verdict: Result<(), String>)
        ensures
            exists|exceeded: Option<Window>| is_verdict(verdict, exceeded),
    {
        let exceeded = self.first_exceeded(key);
        let verdict = verdict_for(exceeded);
        assert(is_verdict(verdict, exceeded));
        verdict
    }

    /// Reports what has been counted for `key` in the three windows.
    pub fn get_usage(&self, key: &str) -> (report: String)
        ensures
            exists|five_minutes: Seq<char>, hour: Seq<char>, day: Seq<char>|
                report@ == #[trigger] usage_text(five_minutes, hour, day),
    {
        let usage_5min = usage_of(&self.limiter_5min, key);
        let usage_1hour = usage_of(&self.limiter_1hour, key);
        let usage_1day = usage_of(&self.limiter_1day, key);
        usage_report(usage_5min.as_str(), usage_1hour.as_str(), usage_1day.as_str())
    }
}

/// The shortest window whose limit is exceeded, from what the three windows
/// answered. A window that was not asked counts as not exceeded.
pub open spec fn shortest_of(five_minutes: bool, hour: bool, day: bool) -> Option<Window> {
    if five_minutes {
        Some(Window::FiveMinutes)
    } else if hour {
        Some(Window::Hour)
    } else if day {
        Some(Window::Day)
    } else {
        None
    }
}

/// Picks the window that refuses, from what the three windows answered:
/// the shortest whose limit is exceeded, or none.
pub fn shortest_exceeded(five_minutes: bool, hour: bool, day: bool) -> (exceeded: Option<Window>)
    ensures
        exceeded == shortest_of(five_minutes, hour, day),
{
    if five_minutes {
        Some(Window::FiveMinutes)
    } else if hour {
        Some(Window::Hour)
    } else if day {
        Some(Window::Day)
    } else {
        None
    }
}

} // verus!
