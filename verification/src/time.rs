//! Frame timing: the time between frames and the frame rate.

use vstd::prelude::*;

verus! {

#[verifier::external_type_specification]
#[verifier::external_body]
pub struct ExInstant(web_time::Instant);

/// The largest duration, `Duration::MAX`, in nanoseconds.
pub open spec fn max_duration_nanos() -> u128 {
    18_446_744_073_709_551_615_999_999_999
}

/// Calls `web_time::Instant::now`. The instant comes from the clock: nothing is
/// stated of it.
#[verifier::external_body]
fn instant_now() -> (i: web_time::Instant) {
    web_time::Instant::now()
}

/// Calls `Instant::duration_since`: the time from `earlier` to `later`. It rests on
/// the clock's readings, so nothing is stated of it.
#[verifier::external_body]
fn duration_since(later: &web_time::Instant, earlier: &web_time::Instant) -> (d: std::time::Duration) {
    later.duration_since(*earlier)
}

/// Calls `Duration::as_nanos`: the whole duration in nanoseconds, which is at most
/// that of `Duration::MAX` (the documented bound of a duration). Not stated: which
/// number it is, since `Duration` is opaque here.
#[verifier::external_body]
fn duration_nanos(d: &std::time::Duration) -> (n: u128)
    ensures
        n <= max_duration_nanos(),
{
    d.as_nanos()
}

/// The accumulated time after adding `elapsed` to `total`, stopping at the
/// largest duration.
pub open spec fn accumulated(total: u128, elapsed: u128) -> u128 {
    if total + elapsed > max_duration_nanos() {
        max_duration_nanos()
    } else {
        (total + elapsed) as u128
    }
}

/// Adds `elapsed` nanoseconds to the `total`, stopping at the largest duration.
pub fn accumulate(total: u128, elapsed: u128) -> (d: u128)
    requires
        total <= max_duration_nanos(),
    ensures
        d == accumulated(total, elapsed),
{
    if elapsed > 18_446_744_073_709_551_615_999_999_999 - total {
        18_446_744_073_709_551_615_999_999_999
    } else {
        total + elapsed
    }
}

/// The time since the last frame, measured by the clock.
pub struct Time {
    last: web_time::Instant,
    delta: u128,
}

impl Time {
    #[verifier::type_invariant]
    spec fn bounded(&self) -> bool {
        self.delta <= max_duration_nanos()
    }

    /// The time accumulated since the last reset, in nanoseconds.
    pub closed spec fn delta_nanos(&self) -> u128 {
        self.delta
    }

    /// Starts measuring from now, with nothing accumulated.
    pub fn now() -> (t: Self)
        ensures
            t.delta_nanos() == 0,
    {
        Time { last: instant_now(), delta: 0 }
    }

    /// Adds the time since the previous measure, as the clock gives it, to the
    /// accumulated time and returns the sum, as `accumulate` computes it. The sum
    /// stops at the largest duration.
    pub fn delta(&mut self) -> (d: u128)
        ensures
            d == final(self).delta_nanos(),
            old(self).delta_nanos() <= d <= max_duration_nanos(),
            exists|elapsed: u128|
                elapsed <= max_duration_nanos() && #[trigger] accumulated(old(self).delta_nanos(), elapsed)
                    == d,
    {
        proof {
            use_type_invariant(&*self);
        }
        let now = instant_now();
        let elapsed = duration_since(&now, &self.last);
        let n = duration_nanos(&elapsed);
        let sum = accumulate(self.delta, n);
        assert(accumulated(old(self).delta_nanos(), n) == sum);
        self.last = now;
        self.delta = sum;
        sum
    }

    /// Drops the accumulated time.
    pub fn reset(&mut self)
        ensures
            final(self).delta_nanos() == 0,
    {
        self.delta = 0;
    }
}

/// One second in nanoseconds.
pub open spec fn second_nanos() -> u128 {
    1_000_000_000
}

/// Counts the frames drawn within each second.
pub struct Fps {
    timer: u128,
    counter: u32,
}

impl Fps {
    /// The time counted so far in this second, in nanoseconds.
    pub closed spec fn timer_nanos(&self) -> u128 {
        self.timer
    }

    /// The frames counted so far in this second.
    pub closed spec fn frames(&self) -> u32 {
        self.counter
    }

    #[verifier::type_invariant]
    spec fn within_a_second(&self) -> bool {
        self.timer <= second_nanos()
    }

    /// A counter at zero.
    pub fn new() -> (f: Self)
        ensures
            f.timer_nanos() == 0,
            f.frames() == 0,
    {
        Fps { timer: 0, counter: 0 }
    }

    /// Whether one more frame fits in the counter.
    pub fn can_count(&self) -> (b: bool)
        ensures
            b == (self.frames() < u32::MAX),
    {
        self.counter < u32::MAX
    }

    /// Counts a frame that took `delta_nanos` nanoseconds. When more than a second has
    /// passed, returns the number of frames in it and starts counting again.
    pub fn count(&mut self, delta_nanos: u128) -> (r: Option<u32>)
        requires
            delta_nanos <= u128::MAX - second_nanos(),
            old(self).frames() < u32::MAX,
        ensures
            final(self).timer_nanos() <= second_nanos(),
            old(self).timer_nanos() + delta_nanos > second_nanos() ==> {
                &&& r == Some((old(self).frames() + 1) as u32)
                &&& final(self).timer_nanos() == 0
                &&& final(self).frames() == 0
            },
            old(self).timer_nanos() + delta_nanos <= second_nanos() ==> {
                &&& r is None
                &&& final(self).timer_nanos() == old(self).timer_nanos() + delta_nanos
                &&& final(self).frames() == old(self).frames() + 1
            },
    {
        proof {
            use_type_invariant(&*self);
        }
        let timer = self.timer + delta_nanos;
        let counter = self.counter + 1;
        if timer > 1_000_000_000 {
            *self = Fps { timer: 0, counter: 0 };
            Some(counter)
        } else {
            *self = Fps { timer, counter };
            None
        }
    }
}

impl Default for Fps {
    fn default() -> (f: Self)
        ensures
            f.timer_nanos() == 0,
            f.frames() == 0,
    {
        Fps { timer: 0, counter: 0 }
    }
}

} // verus!
