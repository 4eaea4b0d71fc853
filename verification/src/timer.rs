//! The periodic timer: one host timer handle and the interval it recurs at.
//!
//! The owner constructs the timer, starts it once and finally tears it down.
//! In between the host drives it: it dispatches the handle when its
//! expiration is reached, and the expiration callback emits one notification
//! and submits the handle again. Every operation here decides what happens
//! to the handle and what is handed to the host; performing it is the
//! caller's part.

use vstd::prelude::*;
use crate::ticks::{
    expiration,
    expiration_point,
    has_reached,
    interval_ticks,
    lemma_due_after_interval,
    reached,
    ticks_from_seconds,
    HALF_RANGE,
};

verus! {

/// Where a handle stands with the host. The three states exclude one another.
#[derive(Clone, Copy, Debug, PartialEq, Eq, Structural)]
pub enum HandleState {
    /// Initialised, not scheduled.
    Idle,
    /// Scheduled to fire once the tick counter reaches `expires`.
    Armed { expires: u64 },
    /// The expiration callback is running.
    Executing,
}

/// What the host's allocator answered when asked for a handle.
#[derive(Clone, Copy, Debug, PartialEq, Eq, Structural)]
pub enum Allocation {
    Granted,
    Refused,
}

/// The one way in which the timer can fail.
#[derive(Clone, Copy, Debug, PartialEq, Eq, Structural)]
pub enum TimerError {
    /// The host had no memory for the handle.
    OutOfMemory,
}

/// What the expiration callback emits.
#[derive(Clone, Copy, Debug, PartialEq, Eq, Structural)]
pub enum Notification {
    Heartbeat,
}

/// What one run of the expiration callback hands to the host: the
/// notification for the sink, and the point at which the handle fires next.
#[derive(Clone, Copy, Debug, PartialEq, Eq, Structural)]
pub struct Expiration {
    pub notification: Notification,
    pub rearm_at: u64,
}

/// The answer of a synchronous cancel.
#[derive(Clone, Copy, Debug, PartialEq, Eq, Structural)]
pub enum Cancel {
    /// The handle is idle and will not fire: its memory may be released.
    Quiesced,
    /// The callback is running: the caller has to wait for it to return and
    /// then cancel again.
    InFlight,
}

/// A timer as contracts see it.
pub struct TimerView {
    pub interval_seconds: u64,
    pub ticks_per_second: u64,
    pub state: HandleState,
}

impl TimerView {
    /// A freshly constructed timer: configured, idle.
    pub open spec fn idle(interval_seconds: u64, ticks_per_second: u64) -> TimerView {
        TimerView { interval_seconds, ticks_per_second, state: HandleState::Idle }
    }

    /// The interval in host ticks.
    pub open spec fn interval(self) -> u64 {
        interval_ticks(self.interval_seconds, self.ticks_per_second)
    }

    /// The same timer with its handle in `state`.
    pub open spec fn with_state(self, state: HandleState) -> TimerView {
        TimerView { state, ..self }
    }

    /// Whether the host fires the handle at `now`: it is armed and its
    /// expiration has been reached.
    pub open spec fn is_due(self, now: u64) -> bool {
        match self.state {
            HandleState::Armed { expires } => has_reached(now, expires),
            _ => false,
        }
    }

    /// The timer armed for one interval after `now`.
    pub open spec fn armed_from(self, now: u64) -> TimerView {
        self.with_state(HandleState::Armed { expires: expiration_point(now, self.interval()) })
    }

    /// The timer after the host looked at it at `now`.
    pub open spec fn dispatched(self, now: u64) -> TimerView {
        if self.is_due(now) {
            self.with_state(HandleState::Executing)
        } else {
            self
        }
    }

    /// The timer after one synchronous cancel.
    pub open spec fn cancelled(self) -> TimerView {
        if self.state == HandleState::Executing {
            self
        } else {
            self.with_state(HandleState::Idle)
        }
    }
}

/// One host timer handle, owned, with the interval at which it recurs. The
/// interval is kept in seconds and turned into ticks of the host whenever
/// the handle is armed.
pub struct PeriodicTimer {
    interval_seconds: u64,
    ticks_per_second: u64,
    state: HandleState,
}

impl View for PeriodicTimer {
    type V = TimerView;

    closed spec fn view(&self) -> TimerView {
        TimerView {
            interval_seconds: self.interval_seconds,
            ticks_per_second: self.ticks_per_second,
            state: self.state,
        }
    }
}

impl Notification {
    /// The line that the notification sink prints.
    pub fn text(&self) -> (line: &'static str)
        ensures
            line@ == "\u{1FAC0}\n"@,
    {
        "\u{1FAC0}\n"
    }
}

impl PeriodicTimer {
    /// Constructs a timer around the handle that the host allocated.
    ///
    /// Fails exactly when the allocation was refused. A constructed timer is
    /// idle: construction schedules nothing.
    pub fn new(interval_seconds: u64, ticks_per_second: u64, allocation: Allocation) -> (made:
        Result<PeriodicTimer, TimerError>)
        ensures
            allocation == Allocation::Granted ==> made is Ok && made->Ok_0@ == TimerView::idle(
                interval_seconds,
                ticks_per_second,
            ),
            allocation == Allocation::Refused ==> made == Err::<PeriodicTimer, TimerError>(
                TimerError::OutOfMemory,
            ),
    {
        match allocation {
            Allocation::Granted => Ok(
                PeriodicTimer { interval_seconds, ticks_per_second, state: HandleState::Idle },
            ),
            Allocation::Refused => Err(TimerError::OutOfMemory),
        }
    }

    /// Arms the idle handle for one interval after `now` and returns the
    /// expiration to submit to the host.
    pub fn start(&mut self, now: u64) -> (expires: u64)
        requires
            old(self)@.state == HandleState::Idle,
        ensures
            expires == expiration_point(now, old(self)@.interval()),
            final(self)@ == old(self)@.armed_from(now),
    {
        self.arm(now)
    }

    /// Submits the handle for one interval after `now`, whatever state it is
    /// in, and returns the expiration. The first start and every re-arm go
    /// through here.
    fn arm(&mut self, now: u64) -> (expires: u64)
        ensures
            expires == expiration_point(now, old(self)@.interval()),
            final(self)@ == old(self)@.armed_from(now),
    {
        let expires: u64 = expiration(now, self.interval_in_ticks());
        self.state = HandleState::Armed { expires };
        expires
    }

    /// The host's look at the handle at `now`: a handle that is due begins to
    /// execute, any other is left as it is. Returns whether the callback is
    /// to be invoked.
    pub fn dispatch(&mut self, now: u64) -> (fired: bool)
        ensures
            fired == old(self)@.is_due(now),
            final(self)@ == old(self)@.dispatched(now),
    {
        match self.state {
            HandleState::Armed { expires } => {
                if reached(now, expires) {
                    self.state = HandleState::Executing;
                    true
                } else {
                    false
                }
            },
            _ => false,
        }
    }

    /// The expiration callback, run while the handle executes, with the tick
    /// counter read at that moment: emits the heartbeat and arms the handle
    /// again for one interval after `now`.
    pub fn on_expire(&mut self, now: u64) -> (out: Expiration)
        requires
            old(self)@.state == HandleState::Executing,
        ensures
            out.notification == Notification::Heartbeat,
            out.rearm_at == expiration_point(now, old(self)@.interval()),
            final(self)@ == old(self)@.armed_from(now),
    {
        let rearm_at: u64 = self.arm(now);
        Expiration { notification: Notification::Heartbeat, rearm_at }
    }

    /// One synchronous cancel. A handle whose callback is running is left
    /// alone and reported as in flight; any other becomes idle.
    pub fn cancel_sync(&mut self) -> (answer: Cancel)
        ensures
            answer == if old(self)@.state == HandleState::Executing {
                Cancel::InFlight
            } else {
                Cancel::Quiesced
            },
            final(self)@ == old(self)@.cancelled(),
    {
        match self.state {
            HandleState::Executing => Cancel::InFlight,
            _ => {
                self.state = HandleState::Idle;
                Cancel::Quiesced
            },
        }
    }

    /// Tears the handle down before its memory is released: cancels until
    /// the handle is quiet, letting a callback that is in flight run to its
    /// end first, with the tick counter `now` that it reads. Returns what
    /// that callback emitted, if one ran. The handle is idle afterwards.
    pub fn teardown(&mut self, now: u64) -> (emitted: Option<Expiration>)
        ensures
            final(self)@ == old(self)@.with_state(HandleState::Idle),
            old(self)@.state == HandleState::Executing ==> emitted == Some(
                (Expiration {
                    notification: Notification::Heartbeat,
                    rearm_at: expiration_point(now, old(self)@.interval()),
                }),
            ),
            old(self)@.state != HandleState::Executing ==> emitted is None,
    {
        match self.cancel_sync() {
            Cancel::Quiesced => None,
            Cancel::InFlight => {
                let out = self.on_expire(now);
                let _ = self.cancel_sync();
                Some(out)
            },
        }
    }

    /// Constructs the timer and starts it once, as loading the owner does.
    pub fn load(
        interval_seconds: u64,
        ticks_per_second: u64,
        allocation: Allocation,
        now: u64,
    ) -> (made: Result<PeriodicTimer, TimerError>)
        ensures
            allocation == Allocation::Granted ==> made is Ok && made->Ok_0@ == TimerView::idle(
                interval_seconds,
                ticks_per_second,
            ).armed_from(now),
            allocation == Allocation::Refused ==> made == Err::<PeriodicTimer, TimerError>(
                TimerError::OutOfMemory,
            ),
    {
        match PeriodicTimer::new(interval_seconds, ticks_per_second, allocation) {
            Ok(timer) => {
                let mut timer = timer;
                let _ = timer.start(now);
                Ok(timer)
            },
            Err(e) => Err(e),
        }
    }

    /// The configured interval, in seconds.
    pub fn interval_seconds(&self) -> (seconds: u64)
        ensures
            seconds == self@.interval_seconds,
    {
        self.interval_seconds
    }

    /// The host's ticks per second that the timer was configured with.
    pub fn ticks_per_second(&self) -> (hz: u64)
        ensures
            hz == self@.ticks_per_second,
    {
        self.ticks_per_second
    }

    /// The interval in host ticks.
    pub fn interval_in_ticks(&self) -> (ticks: u64)
        ensures
            ticks == self@.interval(),
    {
        ticks_from_seconds(self.interval_seconds, self.ticks_per_second)
    }

    /// Where the handle stands.
    pub fn state(&self) -> (state: HandleState)
        ensures
            state == self@.state,
    {
        self.state
    }
}

/// An idle handle stays idle however far the tick counter moves: the host
/// fires only what is armed. This holds of a timer that was constructed and
/// not started, and of one that was torn down.
pub proof fn lemma_idle_never_fires(timer: TimerView, now: u64)
    requires
        timer.state == HandleState::Idle,
    ensures
        !timer.is_due(now),
        timer.dispatched(now) == timer,
{
}

/// While the callback runs, the host does not invoke it again: no two
/// executions of one handle overlap.
pub proof fn lemma_no_overlapping_execution(timer: TimerView, now: u64)
    requires
        timer.state == HandleState::Executing,
    ensures
        !timer.is_due(now),
        timer.dispatched(now) == timer,
{
}

/// A handle begins to execute only from the armed state, and only when its
/// expiration has been reached.
pub proof fn lemma_execution_begins_when_due(timer: TimerView, now: u64)
    requires
        timer.dispatched(now).state == HandleState::Executing,
        timer.state != HandleState::Executing,
    ensures
        exists|expires: u64|
            timer.state == (HandleState::Armed { expires }) && has_reached(now, expires),
{
    match timer.state {
        HandleState::Armed { expires } => {
            assert(timer.state == (HandleState::Armed { expires }) && has_reached(now, expires));
        },
        _ => {},
    }
}

/// A handle armed at `now` for an interval of less than half the counter's
/// range is due exactly from the moment the interval has passed, for as long
/// as less than half the range has passed.
pub proof fn lemma_armed_is_due_after_interval(timer: TimerView, now: u64, passed: u64)
    requires
        timer.interval() < HALF_RANGE,
        passed < HALF_RANGE,
    ensures
        timer.armed_from(now).is_due(expiration_point(now, passed)) <==> passed
            >= timer.interval(),
{
    lemma_due_after_interval(now, timer.interval(), passed);
}

/// A synchronous cancel that found the callback running answers quiesced
/// once the callback has returned: teardown ends after at most one wait.
pub proof fn lemma_cancel_after_callback_quiesces(timer: TimerView, now: u64)
    ensures
        timer.armed_from(now).cancelled().state == HandleState::Idle,
        timer.cancelled().cancelled() == timer.cancelled(),
{
}

} // verus!
