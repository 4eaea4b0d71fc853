//! Arithmetic on the host's tick counter.
//!
//! The counter is an unsigned 64-bit value that wraps. Points in time are
//! added to and compared modulo 2^64: one point has been reached from another
//! when the wrapped distance between them is less than half the range.

use vstd::prelude::*;

verus! {

/// The interval between two notifications, in seconds, when nothing else is
/// configured.
pub const INTERVAL_SECONDS: u64 = 5;

/// Half of the counter's range: distances below it count as "not yet wrapped".
pub const HALF_RANGE: u64 = 0x8000_0000_0000_0000;

/// The number of distinct values of the tick counter.
pub open spec fn tick_range() -> int {
    0x1_0000_0000_0000_0000
}

/// `n` reduced to the counter's range.
pub open spec fn wrap_ticks(n: int) -> u64 {
    (n % tick_range()) as u64
}

/// An interval of `seconds` on a host that counts `hz` ticks per second.
pub open spec fn interval_ticks(seconds: u64, hz: u64) -> u64 {
    wrap_ticks(seconds * hz)
}

/// The point `interval` ticks after `now`.
pub open spec fn expiration_point(now: u64, interval: u64) -> u64 {
    wrap_ticks(now + interval)
}

/// The wrapped distance from `then` forward to `now`.
pub open spec fn ticks_since(now: u64, then: u64) -> u64 {
    wrap_ticks(now - then)
}

/// The point `count` whole intervals after `now`, reached one interval at a
/// time.
pub open spec fn nth_expiration(now: u64, interval: u64, count: nat) -> u64
    decreases count,
{
    if count == 0 {
        now
    } else {
        expiration_point(nth_expiration(now, interval, (count - 1) as nat), interval)
    }
}

/// Whether a handle that expires at `expires` is due at `now`.
pub open spec fn has_reached(now: u64, expires: u64) -> bool {
    ticks_since(now, expires) < HALF_RANGE
}

/// Converts an interval in seconds to ticks, wrapping like the counter does.
pub fn ticks_from_seconds(seconds: u64, hz: u64) -> (ticks: u64)
    ensures
        ticks == interval_ticks(seconds, hz),
{
    seconds.wrapping_mul(hz)
}

/// The absolute expiration `interval` ticks after `now`.
pub fn expiration(now: u64, interval: u64) -> (expires: u64)
    ensures
        expires == expiration_point(now, interval),
{
    now.wrapping_add(interval)
}

/// Wraparound-aware "`now` is at or after `expires`".
pub fn reached(now: u64, expires: u64) -> (due: bool)
    ensures
        due == has_reached(now, expires),
{
    now.wrapping_sub(expires) < HALF_RANGE
}

/// Adding an interval and measuring back gives the interval.
pub proof fn lemma_distance_to_expiration(now: u64, interval: u64)
    ensures
        ticks_since(expiration_point(now, interval), now) == interval,
{
}

/// Adding to a wrapped point is adding before wrapping.
pub proof fn lemma_expiration_of_wrapped(point: int, interval: u64)
    ensures
        expiration_point(wrap_ticks(point), interval) == wrap_ticks(point + interval),
{
}

/// Going forward interval by interval arrives where one addition of their
/// sum does.
pub proof fn lemma_nth_expiration(now: u64, interval: u64, count: nat)
    ensures
        nth_expiration(now, interval, count) == wrap_ticks(now + count * interval),
    decreases count,
{
    if count == 0 {
        assert(0 * interval == 0);
    } else {
        let fewer = (count - 1) as nat;
        lemma_nth_expiration(now, interval, fewer);
        let done: int = fewer * interval;
        assert(count * interval == done + interval) by (nonlinear_arith)
            requires
                fewer + 1 == count,
                done == fewer * interval,
        ;
        lemma_expiration_of_wrapped(now + done, interval);
    }
}

/// Stepping one tick at a time arrives where one addition does.
pub proof fn lemma_expiration_steps(now: u64, passed: u64)
    requires
        passed < u64::MAX,
    ensures
        expiration_point(expiration_point(now, passed), 1) == expiration_point(
            now,
            (passed + 1) as u64,
        ),
        expiration_point(now, 0) == now,
{
}

/// An expiration less than half the range ahead lies in the future: it has
/// not been reached at `now`, and `now` is behind it.
pub proof fn lemma_expiration_is_future(now: u64, interval: u64)
    requires
        0 < interval < HALF_RANGE,
    ensures
        !has_reached(now, expiration_point(now, interval)),
        has_reached(expiration_point(now, interval), now),
{
}

/// While less than half the range has passed since arming, the handle is due
/// exactly from the moment a whole interval has passed.
pub proof fn lemma_due_after_interval(now: u64, interval: u64, passed: u64)
    requires
        interval < HALF_RANGE,
        passed < HALF_RANGE,
    ensures
        has_reached(expiration_point(now, passed), expiration_point(now, interval)) <==> passed
            >= interval,
{
}

} // verus!
