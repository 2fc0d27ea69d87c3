//! A frame timer: the time between the two most recent ticks.

use std::time::Duration;
use std::time::Instant;
use vstd::prelude::*;

verus! {

/// `std::time::Instant`, carried through as an opaque value.
#[verifier::external_type_specification]
#[verifier::external_body]
pub struct ExInstant(Instant);

/// The largest number of nanoseconds a `Duration` can hold:
/// `u64::MAX` seconds and 999,999,999 nanoseconds.
pub const MAX_NANOS: u128 = 18_446_744_073_709_551_615_999_999_999;

pub const NANOS_PER_SEC: u128 = 1_000_000_000;

/// The `Duration` that `Duration::new` makes of whole seconds and a
/// fraction of a second in nanoseconds.
pub uninterp spec fn duration_of(secs: u64, nanos: u32) -> Duration;

/// `Instant::now`: reads the clock. Nothing is claimed of the reading.
#[verifier::external_body]
fn clock_now() -> Instant {
    Instant::now()
}

/// `Instant::elapsed`: the time since `origin` was read. Nothing is
/// claimed of it.
#[verifier::external_body]
fn elapsed_since(origin: &Instant) -> Duration {
    origin.elapsed()
}

/// `Duration::as_nanos`: the whole of a `Duration` in nanoseconds. A
/// `Duration` holds at most `u64::MAX` seconds and a fraction below one
/// second, which is all that is claimed.
#[verifier::external_body]
fn duration_as_nanos(duration: &Duration) -> (nanos: u128)
    ensures
        nanos <= MAX_NANOS,
{
    duration.as_nanos()
}

/// `Duration::new`: with a fraction below one second there is no carry,
/// so the call cannot overflow.
#[verifier::external_body]
fn duration_new(secs: u64, nanos: u32) -> (d: Duration)
    requires
        nanos < NANOS_PER_SEC,
    ensures
        d == duration_of(secs, nanos),
{
    Duration::new(secs, nanos)
}

/// Whole seconds in a span of `nanos` nanoseconds.
pub open spec fn whole_secs(nanos: nat) -> nat {
    nanos / (NANOS_PER_SEC as nat)
}

/// Nanoseconds left over after the whole seconds of `nanos`.
pub open spec fn subsec_nanos(nanos: nat) -> nat {
    nanos % (NANOS_PER_SEC as nat)
}

/// Keeps the clock readings of the two most recent ticks, each as
/// nanoseconds since the timer was made.
pub struct Timer {
    origin: Instant,
    last_time: u128,
    now: u128,
}

impl Timer {
    #[verifier::type_invariant]
    spec fn inv(&self) -> bool {
        self.last_time <= MAX_NANOS && self.now <= MAX_NANOS
    }

    /// The reading of the tick before the most recent one.
    pub closed spec fn last_time(&self) -> nat {
        self.last_time as nat
    }

    /// The reading of the most recent tick.
    pub closed spec fn now(&self) -> nat {
        self.now as nat
    }

    /// Nanoseconds from `last_time` to `now`; zero if the clock went back.
    pub open spec fn elapsed(&self) -> nat {
        if self.now() >= self.last_time() {
            (self.now() - self.last_time()) as nat
        } else {
            0
        }
    }

    /// Records `reading` as the most recent tick; the previous `now`
    /// becomes `last_time`.
    pub fn tick_at(&mut self, reading: u128)
        requires
            reading <= MAX_NANOS,
        ensures
            final(self).last_time() == old(self).now(),
            final(self).now() == reading,
    {
        proof {
            use_type_invariant(&*self);
        }
        self.last_time = self.now;
        self.now = reading;
    }

    /// Reads the clock and records the reading as the most recent tick.
    pub fn tick(&mut self)
        ensures
            final(self).last_time() == old(self).now(),
    {
        let since_origin = elapsed_since(&self.origin);
        let reading = duration_as_nanos(&since_origin);
        self.tick_at(reading);
    }

    /// Ticks, then forgets the tick before: the elapsed time is zero.
    pub fn _reset(&mut self)
        ensures
            final(self).last_time() == final(self).now(),
            final(self).elapsed() == 0,
    {
        self.tick();
        proof {
            use_type_invariant(&*self);
        }
        self.last_time = self.now;
    }

    /// Nanoseconds between the two most recent ticks.
    pub fn elapsed_nanos(&self) -> (nanos: u128)
        ensures
            nanos == self.elapsed(),
            nanos <= MAX_NANOS,
    {
        proof {
            use_type_invariant(self);
        }
        if self.now >= self.last_time {
            self.now - self.last_time
        } else {
            0
        }
    }

    /// The time between the two most recent ticks.
    pub fn get_elapsed(&self) -> (d: Duration)
        ensures
            d == duration_of(
                whole_secs(self.elapsed()) as u64,
                subsec_nanos(self.elapsed()) as u32,
            ),
            whole_secs(self.elapsed()) <= u64::MAX,
            subsec_nanos(self.elapsed()) < NANOS_PER_SEC,
    {
        let nanos = self.elapsed_nanos();
        let secs = (nanos / NANOS_PER_SEC) as u64;
        let rest = (nanos % NANOS_PER_SEC) as u32;
        duration_new(secs, rest)
    }
}

impl Default for Timer {
    /// A timer whose two readings are both the moment it was made.
    fn default() -> (t: Timer)
        ensures
            t.last_time() == 0,
            t.now() == 0,
            t.elapsed() == 0,
    {
        Timer { origin: clock_now(), last_time: 0, now: 0 }
    }
}

} // verus!
