//! A deterministic host: a tick counter, an allocator that can be made to
//! refuse, room for one timer handle, and the sink that records each
//! notification with the tick at which it was emitted.
//!
//! The host moves in small steps (advance the counter, dispatch the handle,
//! run the callback) so that every interleaving with the owner's load and
//! unload can be played through; `tick` and `run` bundle them.

use vstd::prelude::*;
use crate::ticks::{
    expiration_point,
    lemma_due_after_interval,
    lemma_expiration_of_wrapped,
    lemma_expiration_steps,
    lemma_nth_expiration,
    nth_expiration,
    wrap_ticks,
    HALF_RANGE,
};
use crate::timer::{Allocation, HandleState, PeriodicTimer, TimerError, TimerView};

verus! {

/// A host as contracts see it.
pub struct HostView {
    pub now: u64,
    pub ticks_per_second: u64,
    pub allocation: Allocation,
    pub handle: Option<TimerView>,
    pub log: Seq<u64>,
}

impl HostView {
    /// A host that has just come up at tick `now`.
    pub open spec fn booted(ticks_per_second: u64, now: u64) -> HostView {
        HostView {
            now,
            ticks_per_second,
            allocation: Allocation::Granted,
            handle: None,
            log: Seq::empty(),
        }
    }

    /// The host after the owner asked it to load a timer.
    pub open spec fn loaded(self, interval_seconds: u64) -> HostView {
        match self.allocation {
            Allocation::Granted => HostView {
                handle: Some(
                    TimerView::idle(interval_seconds, self.ticks_per_second).armed_from(self.now),
                ),
                ..self
            },
            Allocation::Refused => self,
        }
    }

    /// The tick counter moved on by one.
    pub open spec fn advanced(self) -> HostView {
        HostView { now: expiration_point(self.now, 1), ..self }
    }

    /// Whether the host holds a handle that is due now.
    pub open spec fn is_due(self) -> bool {
        self.handle is Some && self.handle->Some_0.is_due(self.now)
    }

    /// Whether the callback of the host's handle is running.
    pub open spec fn is_executing(self) -> bool {
        self.handle is Some && self.handle->Some_0.state == HandleState::Executing
    }

    /// The host after it looked at its handle.
    pub open spec fn dispatched(self) -> HostView {
        match self.handle {
            Some(timer) => HostView { handle: Some(timer.dispatched(self.now)), ..self },
            None => self,
        }
    }

    /// The host after a running callback has returned: the notification is
    /// in the log and the handle is armed again.
    pub open spec fn completed(self) -> HostView {
        if self.is_executing() {
            HostView {
                handle: Some(self.handle->Some_0.armed_from(self.now)),
                log: self.log.push(self.now),
                ..self
            }
        } else {
            self
        }
    }

    /// One whole tick: advance, dispatch, run the callback.
    pub open spec fn ticked(self) -> HostView {
        self.advanced().dispatched().completed()
    }

    /// The host `ticks` whole ticks later.
    pub open spec fn after(self, ticks: nat) -> HostView
        decreases ticks,
    {
        if ticks == 0 {
            self
        } else {
            self.after((ticks - 1) as nat).ticked()
        }
    }

    /// The host after the owner unloaded: a callback in flight has run to
    /// its end, and no handle is left.
    pub open spec fn unloaded(self) -> HostView {
        HostView { handle: None, ..self.completed() }
    }
}

/// The host. It holds at most one handle, the one of the timer that was
/// loaded into it.
pub struct Host {
    now: u64,
    ticks_per_second: u64,
    allocation: Allocation,
    handle: Option<PeriodicTimer>,
    log: Vec<u64>,
}

impl View for Host {
    type V = HostView;

    closed spec fn view(&self) -> HostView {
        HostView {
            now: self.now,
            ticks_per_second: self.ticks_per_second,
            allocation: self.allocation,
            handle: match self.handle {
                Some(timer) => Some(timer@),
                None => None,
            },
            log: self.log@,
        }
    }
}

impl Host {
    /// A host whose counter stands at `now`, with memory to give, no handle
    /// and an empty log.
    pub fn new(ticks_per_second: u64, now: u64) -> (host: Host)
        ensures
            host@ == HostView::booted(ticks_per_second, now),
    {
        Host {
            now,
            ticks_per_second,
            allocation: Allocation::Granted,
            handle: None,
            log: Vec::new(),
        }
    }

    /// Sets what the allocator answers from now on.
    pub fn set_allocation(&mut self, allocation: Allocation)
        ensures
            final(self)@ == (HostView { allocation, ..old(self)@ }),
    {
        self.allocation = allocation;
    }

    /// Loads a timer: constructs it and starts it once. Fails, and leaves
    /// the host without a handle, exactly when the allocator refuses.
    pub fn load(&mut self, interval_seconds: u64) -> (loaded: Result<(), TimerError>)
        requires
            old(self)@.handle is None,
        ensures
            final(self)@ == old(self)@.loaded(interval_seconds),
            old(self)@.allocation == Allocation::Granted ==> loaded is Ok,
            old(self)@.allocation == Allocation::Refused ==> loaded == Err::<(), TimerError>(
                TimerError::OutOfMemory,
            ),
    {
        match PeriodicTimer::load(
            interval_seconds,
            self.ticks_per_second,
            self.allocation,
            self.now,
        ) {
            Ok(timer) => {
                self.handle = Some(timer);
                Ok(())
            },
            Err(e) => Err(e),
        }
    }

    /// Moves the tick counter on by one.
    pub fn advance(&mut self)
        ensures
            final(self)@ == old(self)@.advanced(),
    {
        self.now = self.now.wrapping_add(1);
    }

    /// Looks at the handle: if it is due it begins to execute. Returns
    /// whether the callback is to run.
    pub fn dispatch(&mut self) -> (fired: bool)
        ensures
            fired == old(self)@.is_due(),
            final(self)@ == old(self)@.dispatched(),
    {
        let now: u64 = self.now;
        match &mut self.handle {
            Some(timer) => timer.dispatch(now),
            None => false,
        }
    }

    /// Runs the callback of a handle that is executing, with the counter as
    /// it stands: logs the notification and arms the handle again. Returns
    /// whether a callback ran.
    pub fn run_callback(&mut self) -> (ran: bool)
        ensures
            ran == old(self)@.is_executing(),
            final(self)@ == old(self)@.completed(),
    {
        let now: u64 = self.now;
        match &mut self.handle {
            Some(timer) => {
                match timer.state() {
                    HandleState::Executing => {
                        let _ = timer.on_expire(now);
                        self.log.push(now);
                        true
                    },
                    _ => false,
                }
            },
            None => false,
        }
    }

    /// One whole tick: advance, dispatch, run the callback.
    pub fn tick(&mut self)
        ensures
            final(self)@ == old(self)@.ticked(),
    {
        self.advance();
        let _ = self.dispatch();
        let _ = self.run_callback();
    }

    /// Lets `ticks` whole ticks pass.
    pub fn run(&mut self, ticks: u64)
        ensures
            final(self)@ == old(self)@.after(ticks as nat),
    {
        let mut done: u64 = 0;
        while done < ticks
            invariant
                done <= ticks,
                self@ == old(self)@.after(done as nat),
            decreases ticks - done,
        {
            self.tick();
            done = done + 1;
        }
    }

    /// Unloads the timer: tears the handle down, which lets a callback in
    /// flight run to its end, and releases it.
    pub fn unload(&mut self)
        ensures
            final(self)@ == old(self)@.unloaded(),
    {
        let now: u64 = self.now;
        let emitted = match &mut self.handle {
            Some(timer) => timer.teardown(now),
            None => None,
        };
        if emitted.is_some() {
            self.log.push(now);
        }
        self.handle = None;
    }

    /// The tick counter.
    pub fn now(&self) -> (now: u64)
        ensures
            now == self@.now,
    {
        self.now
    }

    /// Where the handle stands, if the host holds one.
    pub fn handle_state(&self) -> (state: Option<HandleState>)
        ensures
            state == match self@.handle {
                Some(timer) => Some(timer.state),
                None => None,
            },
    {
        match &self.handle {
            Some(timer) => Some(timer.state()),
            None => None,
        }
    }

    /// How many notifications the sink has seen.
    pub fn emitted(&self) -> (count: usize)
        ensures
            count == self@.log.len(),
    {
        self.log.len()
    }

    /// The tick at which the notification `index` was emitted.
    pub fn emission(&self, index: usize) -> (at: Option<u64>)
        ensures
            at == if index < self@.log.len() {
                Some(self@.log[index as int])
            } else {
                None
            },
    {
        if index < self.log.len() {
            Some(self.log[index])
        } else {
            None
        }
    }
}

/// Passing time is passing it tick by tick: `first + second` ticks are
/// `first` ticks and then `second` more.
pub proof fn lemma_after_splits(host: HostView, first: nat, second: nat)
    ensures
        host.after(first + second) == host.after(first).after(second),
    decreases second,
{
    if second > 0 {
        lemma_after_splits(host, first, (second - 1) as nat);
    }
}

/// A host without a handle emits nothing, however long it runs.
pub proof fn lemma_silent_without_handle(host: HostView, ticks: nat)
    requires
        host.handle is None,
    ensures
        host.after(ticks).handle is None,
        host.after(ticks).log == host.log,
    decreases ticks,
{
    if ticks > 0 {
        lemma_silent_without_handle(host, (ticks - 1) as nat);
    }
}

/// After unloading nothing is emitted any more, however much time passes:
/// the log stays what it was when the unload returned.
pub proof fn lemma_silent_after_unload(host: HostView, ticks: nat)
    ensures
        host.unloaded().after(ticks).log == host.unloaded().log,
        host.unloaded().after(ticks).handle is None,
{
    lemma_silent_without_handle(host.unloaded(), ticks);
}

/// A handle that was never started is never fired: it stays idle and the
/// log stays as it is.
pub proof fn lemma_silent_while_idle(host: HostView, ticks: nat)
    requires
        host.handle is Some,
        host.handle->Some_0.state == HandleState::Idle,
    ensures
        host.after(ticks).handle == host.handle,
        host.after(ticks).log == host.log,
    decreases ticks,
{
    if ticks > 0 {
        lemma_silent_while_idle(host, (ticks - 1) as nat);
    }
}

/// One tick emits at most one notification, and every notification is
/// followed within the same tick by arming the handle for one interval after
/// the tick at which it was emitted.
pub proof fn lemma_emission_rearms(host: HostView)
    ensures
        host.ticked().log == host.log || host.ticked().log == host.log.push(host.ticked().now),
        host.ticked().log != host.log ==> host.ticked().handle is Some
            && host.ticked().handle->Some_0.state == (HandleState::Armed {
            expires: expiration_point(host.ticked().now, host.handle->Some_0.interval()),
        }),
{
    let before = host.advanced().dispatched();
    if before.is_executing() {
        assert(host.ticked().log == host.log.push(host.ticked().now));
    } else {
        assert(host.ticked().log == host.log);
    }
}

/// Once started, the handle is found armed after every whole tick: no
/// expiration ends the recurrence.
pub proof fn lemma_stays_armed(host: HostView, ticks: nat)
    requires
        host.handle is Some,
        host.handle->Some_0.state is Armed,
    ensures
        host.after(ticks).handle is Some,
        host.after(ticks).handle->Some_0.state is Armed,
    decreases ticks,
{
    if ticks > 0 {
        lemma_stays_armed(host, (ticks - 1) as nat);
    }
}

/// A handle armed now for less than half the counter's range is left alone
/// until its interval has passed: only the counter moves.
pub proof fn lemma_quiet_before_expiration(host: HostView, passed: nat)
    requires
        host.handle is Some,
        host.handle->Some_0 == host.handle->Some_0.armed_from(host.now),
        host.handle->Some_0.interval() < HALF_RANGE,
        passed < host.handle->Some_0.interval(),
    ensures
        host.after(passed) == (HostView {
            now: expiration_point(host.now, passed as u64),
            ..host
        }),
    decreases passed,
{
    let timer = host.handle->Some_0;
    if passed > 0 {
        let earlier = (passed - 1) as nat;
        lemma_quiet_before_expiration(host, earlier);
        let before = host.after(earlier);
        let step = before.advanced();
        assert(step.now == expiration_point(host.now, passed as u64)) by {
            lemma_expiration_steps(host.now, earlier as u64);
        }
        assert(!step.is_due()) by {
            lemma_due_after_interval(host.now, timer.interval(), passed as u64);
        }
        assert(step.dispatched() == step);
        assert(step.completed() == step);
        assert(host.after(passed) == step);
    } else {
        lemma_expiration_steps(host.now, 0);
    }
}

/// A handle armed now for an interval between one tick and half the
/// counter's range fires when exactly that interval has passed: the sink
/// gets one notification at the expiration, and the handle is armed for one
/// interval after it.
pub proof fn lemma_fires_at_expiration(host: HostView)
    requires
        host.handle is Some,
        host.handle->Some_0 == host.handle->Some_0.armed_from(host.now),
        0 < host.handle->Some_0.interval() < HALF_RANGE,
    ensures
        host.after(host.handle->Some_0.interval() as nat) == ({
            let at = expiration_point(host.now, host.handle->Some_0.interval());
            HostView {
                now: at,
                handle: Some(host.handle->Some_0.armed_from(at)),
                log: host.log.push(at),
                ..host
            }
        }),
{
    let timer = host.handle->Some_0;
    let interval = timer.interval();
    let earlier = (interval - 1) as nat;
    lemma_quiet_before_expiration(host, earlier);
    let step = host.after(earlier).advanced();
    let at = expiration_point(host.now, interval);
    assert(step.now == at) by {
        lemma_expiration_steps(host.now, earlier as u64);
    }
    assert(step.is_due()) by {
        lemma_due_after_interval(host.now, interval, interval);
    }
    assert(step.dispatched().is_executing());
    assert(host.after(interval as nat) == step.dispatched().completed());
}

/// The ticks at which a handle armed at `now` emits its first `count`
/// notifications when the host runs tick by tick: one every `interval`.
pub open spec fn cadence(now: u64, interval: u64, count: nat) -> Seq<u64>
    decreases count,
{
    if count == 0 {
        Seq::empty()
    } else {
        cadence(now, interval, (count - 1) as nat).push(nth_expiration(now, interval, count))
    }
}

/// The notification `index` of a cadence comes `index + 1` whole intervals
/// after the handle was armed.
pub proof fn lemma_cadence_index(now: u64, interval: u64, count: nat, index: int)
    requires
        0 <= index < count,
    ensures
        cadence(now, interval, count).len() == count,
        cadence(now, interval, count)[index] == wrap_ticks(now + (index + 1) * interval),
    decreases count,
{
    lemma_cadence_len(now, interval, count);
    lemma_cadence_len(now, interval, (count - 1) as nat);
    if index == count - 1 {
        lemma_nth_expiration(now, interval, count);
    } else {
        lemma_cadence_index(now, interval, (count - 1) as nat, index);
    }
}

/// A cadence of `count` notifications has `count` entries.
pub proof fn lemma_cadence_len(now: u64, interval: u64, count: nat)
    ensures
        cadence(now, interval, count).len() == count,
    decreases count,
{
    if count > 0 {
        lemma_cadence_len(now, interval, (count - 1) as nat);
    }
}

/// The recurrence: a handle armed now, for an interval between one tick and
/// half the counter's range, has after `count` whole intervals emitted
/// exactly `count` notifications, one at the end of each interval, and is
/// armed for the next.
pub proof fn lemma_recurs_every_interval(host: HostView, count: nat)
    requires
        host.handle is Some,
        host.handle->Some_0 == host.handle->Some_0.armed_from(host.now),
        0 < host.handle->Some_0.interval() < HALF_RANGE,
    ensures
        host.after(count * (host.handle->Some_0.interval() as nat)) == ({
            let at = nth_expiration(host.now, host.handle->Some_0.interval(), count);
            HostView {
                now: at,
                handle: Some(host.handle->Some_0.armed_from(at)),
                log: host.log + cadence(host.now, host.handle->Some_0.interval(), count),
                ..host
            }
        }),
    decreases count,
{
    let timer = host.handle->Some_0;
    let interval = timer.interval();
    let length = interval as nat;
    if count == 0 {
        assert(0 * length == 0);
        assert(host.log + cadence(host.now, interval, 0) =~= host.log);
    } else {
        let fewer = (count - 1) as nat;
        lemma_recurs_every_interval(host, fewer);
        let before = host.after(fewer * length);
        let at = nth_expiration(host.now, interval, count);
        assert(count * length == fewer * length + length) by (nonlinear_arith)
            requires
                fewer + 1 == count,
        ;
        assert(host.after(count * length) == before.after(length)) by {
            lemma_after_splits(host, fewer * length, length);
        }
        assert(expiration_point(before.now, interval) == at);
        lemma_fires_at_expiration(before);
        assert(before.log.push(at) =~= host.log + cadence(host.now, interval, count));
    }
}

/// The whole run of a started timer: after any number of ticks the sink has
/// seen exactly one notification for every whole interval that has passed,
/// each at the end of its interval, and the handle is armed for the end of
/// the interval that is under way.
pub proof fn lemma_emits_once_per_interval(host: HostView, ticks: nat)
    requires
        host.handle is Some,
        host.handle->Some_0 == host.handle->Some_0.armed_from(host.now),
        0 < host.handle->Some_0.interval() < HALF_RANGE,
    ensures
        host.after(ticks) == ({
            let interval = host.handle->Some_0.interval();
            let count = ticks / (interval as nat);
            HostView {
                now: wrap_ticks(host.now + ticks),
                handle: Some(
                    host.handle->Some_0.armed_from(nth_expiration(host.now, interval, count)),
                ),
                log: host.log + cadence(host.now, interval, count),
                ..host
            }
        }),
{
    let interval = host.handle->Some_0.interval();
    let length = interval as nat;
    let count = ticks / length;
    let rest = ticks % length;
    let done: int = count * interval;
    assert(ticks == done + rest && rest < length && count * length == done) by {
        vstd::arithmetic::div_mod::lemma_fundamental_div_mod(ticks as int, length as int);
        vstd::arithmetic::div_mod::lemma_mod_bound(ticks as int, length as int);
        assert(length * count == count * length) by (nonlinear_arith);
    }
    lemma_recurs_every_interval(host, count);
    let whole = host.after(count * length);
    lemma_quiet_before_expiration(whole, rest);
    assert(host.after(ticks) == whole.after(rest)) by {
        lemma_after_splits(host, count * length, rest);
    }
    assert(expiration_point(whole.now, rest as u64) == wrap_ticks(host.now + ticks)) by {
        lemma_nth_expiration(host.now, interval, count);
        lemma_expiration_of_wrapped(host.now + done, rest as u64);
    }
}

} // verus!
