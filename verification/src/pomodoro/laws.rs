//! What holds of every session, stated over the model of `countdown` and
//! proved.

use vstd::prelude::*;
use crate::pomodoro::countdown::{CountdownMode, Session, TimerStep};
use crate::pomodoro::cycle::next_round;
use crate::pomodoro::time::PomodoroTimeMode;

verus! {

/// A call that the host or a commander makes on a running session.
pub enum Call {
    /// One elapsed second is reported.
    Tick,
    /// A stop is requested.
    Stop,
    /// The loop asks what to do next.
    Poll,
}

/// The session after `call`.
pub open spec fn after_call(s: Session, call: Call) -> Session {
    match call {
        Call::Tick => s.tick(),
        Call::Stop => s.request_stop(),
        Call::Poll => s.after_poll(),
    }
}

/// `call` ends the countdown: it is the poll that finds it stopped or run
/// out.
pub open spec fn ends(s: Session, call: Call) -> bool {
    call is Poll && (s.poll() is Stopped || s.poll() is Completed)
}

/// The session after all of `calls`, in order.
pub open spec fn after_calls(s: Session, calls: Seq<Call>) -> Session
    decreases calls.len(),
{
    if calls.len() == 0 {
        s
    } else {
        after_calls(after_call(s, calls[0]), calls.skip(1))
    }
}

/// None of `calls`, made in order from `s`, ends the countdown.
pub open spec fn none_ends(s: Session, calls: Seq<Call>) -> bool
    decreases calls.len(),
{
    calls.len() == 0 || (!ends(s, calls[0]) && none_ends(
        after_call(s, calls[0]),
        calls.skip(1),
    ))
}

/// Every transition keeps a well-formed session well-formed.
pub proof fn lemma_wf_preserved(s: Session, time_mode: PomodoroTimeMode)
    requires
        s.wf(),
    ensures
        Session::fresh(time_mode).wf(),
        s.start().wf(),
        s.request_stop().wf(),
        s.tick().wf(),
        s.complete().wf(),
        s.after_poll().wf(),
        !s.running ==> s.reset(time_mode).wf(),
{
}

/// A session that was started stays running until a poll ends it: whatever
/// ticks, stop requests and polls come in between, if none of them ended
/// the countdown, a second start is refused.
pub proof fn lemma_second_start_refused(s: Session, calls: Seq<Call>)
    requires
        !s.running,
        none_ends(s.start(), calls),
    ensures
        after_calls(s.start(), calls).running,
{
    lemma_running_until_ended(s.start(), calls);
}

/// A running session is still running after calls of which none ended the
/// countdown.
pub proof fn lemma_running_until_ended(s: Session, calls: Seq<Call>)
    requires
        s.running,
        none_ends(s, calls),
    ensures
        after_calls(s, calls).running,
    decreases calls.len(),
{
    if calls.len() > 0 {
        lemma_running_until_ended(after_call(s, calls[0]), calls.skip(1));
    }
}

/// On an idle session a stop request changes nothing, a second passes
/// unnoticed, and the loop has nothing to announce.
pub proof fn lemma_idle_stop_is_noop(s: Session)
    requires
        !s.running,
    ensures
        s.request_stop() == s,
        s.tick() == s,
        s.poll() == TimerStep::Idle,
        s.after_poll() == s,
{
}

/// A stop request is idempotent: asking twice is asking once.
pub proof fn lemma_stop_idempotent(s: Session)
    ensures
        s.request_stop().request_stop() == s.request_stop(),
        !s.request_stop().signal_armed || !s.running,
{
}

/// Cancelling never moves the cycle. Once a running session was asked to
/// stop, no further second is counted, the next poll ends it as stopped,
/// and time left, phase and rest counter are what they were before the
/// request; the session can then be started again.
pub proof fn lemma_cancel_keeps_cycle(s: Session)
    requires
        s.running,
    ensures
        s.request_stop().tick() == s.request_stop(),
        s.request_stop().poll() == TimerStep::Stopped,
        s.request_stop().after_poll().remaining == s.remaining,
        s.request_stop().after_poll().mode == s.mode,
        s.request_stop().after_poll().rest_count == s.rest_count,
        s.request_stop().after_poll().time_mode == s.time_mode,
        !s.request_stop().after_poll().running,
        !s.request_stop().after_poll().signal_armed,
{
}

/// Phase and rest counter change only when a phase runs out. Starting,
/// ticking, a stop request, and every poll that does not complete leave
/// both alone; completing a work phase leaves the counter alone too, and
/// completing a rest adds exactly one.
pub proof fn lemma_cycle_moves_only_on_completion(s: Session)
    ensures
        s.start().mode == s.mode && s.start().rest_count == s.rest_count,
        s.tick().mode == s.mode && s.tick().rest_count == s.rest_count,
        s.request_stop().mode == s.mode && s.request_stop().rest_count == s.rest_count,
        !(s.poll() is Completed) ==> s.after_poll().mode == s.mode && s.after_poll().rest_count
            == s.rest_count && s.after_poll().remaining == s.remaining,
        s.poll() is Completed ==> s.after_poll().mode != s.mode,
        s.poll() is Completed && s.mode is Work ==> s.after_poll().rest_count == s.rest_count,
        s.poll() is Completed && s.mode is Rest ==> s.after_poll().rest_count == s.rest_count + 1,
        s.poll() is Completed ==> s.poll() == TimerStep::Completed(s.mode) && s.remaining <= 0,
{
}

/// Changing the preset of a running session goes through a stop. The
/// request defers and asks the countdown to stop; the next poll ends it as
/// stopped; asked again, the change applies, and the session is idle at the
/// beginning of a work phase of the new preset with no rest counted.
pub proof fn lemma_mode_change_after_stop(s: Session, time_mode: PomodoroTimeMode)
    requires
        s.running,
    ensures
        s.request_stop().poll() == TimerStep::Stopped,
        !s.request_stop().after_poll().running,
        s.request_stop().after_poll().reset(time_mode).mode == CountdownMode::Work,
        s.request_stop().after_poll().reset(time_mode).remaining == time_mode.config().work_time,
        s.request_stop().after_poll().reset(time_mode).rest_count == 0,
        s.request_stop().after_poll().reset(time_mode).time_mode == time_mode,
        !s.request_stop().after_poll().reset(time_mode).running,
        time_mode is Long ==> s.request_stop().after_poll().reset(time_mode).remaining == 3600,
{
}

/// What a countdown announces after it has started.
pub enum TimerEvent {
    /// A second was counted; the time left is given.
    Tick(int),
    /// The phase named ran out.
    Completed(CountdownMode),
    /// The countdown was cancelled.
    Stopped,
}

/// One fewer, for a count of seconds after which a stop arrives.
pub open spec fn one_less(stop_after: Option<nat>) -> Option<nat> {
    match stop_after {
        Some(n) => Some((n - 1) as nat),
        None => None,
    }
}

/// The events of one run of the loop on `s`, in order. The loop polls; told
/// to wait, it waits one second and reports it, and polls again. With
/// `stop_after` given, a stop is requested during the wait that follows
/// that many counted seconds.
pub open spec fn run_events(s: Session, stop_after: Option<nat>) -> Seq<TimerEvent>
    decreases s.remaining, (if s.stop_requested { 0nat } else { 1nat }),
{
    match s.poll() {
        TimerStep::Idle => Seq::empty(),
        TimerStep::Stopped => seq![TimerEvent::Stopped],
        TimerStep::Completed(ended) => seq![TimerEvent::Completed(ended)],
        TimerStep::Wait => if stop_after == Some(0nat) {
            run_events(s.request_stop(), None)
        } else {
            seq![TimerEvent::Tick(s.tick().remaining)] + run_events(s.tick(), one_less(stop_after))
        },
    }
}

/// The session at the end of the run that `run_events` describes.
pub open spec fn run_end(s: Session, stop_after: Option<nat>) -> Session
    decreases s.remaining, (if s.stop_requested { 0nat } else { 1nat }),
{
    match s.poll() {
        TimerStep::Idle => s,
        TimerStep::Stopped => s.after_poll(),
        TimerStep::Completed(_) => s.after_poll(),
        TimerStep::Wait => if stop_after == Some(0nat) {
            run_end(s.request_stop(), None)
        } else {
            run_end(s.tick(), one_less(stop_after))
        },
    }
}

/// A run that nobody stops counts every second down to zero and then
/// completes. With `n` seconds left it announces exactly `n` ticks, with
/// the values `n - 1` down to `0` in this order and no gap, then exactly one
/// completion that names the phase that ran, and never a stop. The session
/// ends idle in the next phase of the cycle.
pub proof fn lemma_full_run(s: Session)
    requires
        s.running,
        !s.stop_requested,
        s.remaining >= 0,
    ensures
        run_events(s, None).len() == s.remaining + 1,
        forall|i: int|
            0 <= i < s.remaining ==> #[trigger] run_events(s, None)[i] == TimerEvent::Tick(
                s.remaining - 1 - i,
            ),
        run_events(s, None)[s.remaining] == TimerEvent::Completed(s.mode),
        !run_end(s, None).running,
        run_end(s, None).mode == next_round(s.mode, s.rest_count, s.time_mode.config()).0,
        run_end(s, None).rest_count == next_round(s.mode, s.rest_count, s.time_mode.config()).1,
        run_end(s, None).remaining == next_round(s.mode, s.rest_count, s.time_mode.config()).2,
    decreases s.remaining,
{
    if s.remaining > 0 {
        let t = s.tick();
        lemma_full_run(t);
        let head = seq![TimerEvent::Tick(t.remaining)];
        let tail = run_events(t, None);
        assert(run_events(s, None) == head + tail);
        assert forall|i: int| 0 <= i < s.remaining implies #[trigger] run_events(s, None)[i]
            == TimerEvent::Tick(s.remaining - 1 - i) by {
            if i > 0 {
                assert((head + tail)[i] == tail[i - 1]);
            }
        }
        assert((head + tail)[s.remaining] == tail[s.remaining - 1]);
    }
}

/// A run that is stopped after `k` counted seconds, with more than `k`
/// seconds to go, announces exactly `k` ticks, counting down without a gap,
/// then exactly one stop, and never a completion. The session ends idle in
/// the phase it was in, with the rest counter it had and the time that was
/// left when the stop came.
pub proof fn lemma_stopped_run(s: Session, k: nat)
    requires
        s.running,
        !s.stop_requested,
        k < s.remaining,
    ensures
        run_events(s, Some(k)).len() == k + 1,
        forall|i: int|
            0 <= i < k ==> #[trigger] run_events(s, Some(k))[i] == TimerEvent::Tick(
                s.remaining - 1 - i,
            ),
        run_events(s, Some(k))[k as int] == TimerEvent::Stopped,
        !run_end(s, Some(k)).running,
        run_end(s, Some(k)).mode == s.mode,
        run_end(s, Some(k)).rest_count == s.rest_count,
        run_end(s, Some(k)).remaining == s.remaining - k,
    decreases k,
{
    if k == 0 {
        assert(run_events(s, Some(0nat)) == run_events(s.request_stop(), None));
        assert(run_events(s.request_stop(), None) == seq![TimerEvent::Stopped]);
        assert(run_end(s, Some(0nat)) == run_end(s.request_stop(), None));
        assert(run_end(s.request_stop(), None) == s.request_stop().after_poll());
    } else {
        let t = s.tick();
        let rest = (k - 1) as nat;
        lemma_stopped_run(t, rest);
        let head = seq![TimerEvent::Tick(t.remaining)];
        let tail = run_events(t, Some(rest));
        assert(one_less(Some(k)) == Some(rest));
        assert(run_events(s, Some(k)) == head + tail);
        assert(run_end(s, Some(k)) == run_end(t, Some(rest)));
        assert forall|i: int| 0 <= i < k implies #[trigger] run_events(s, Some(k))[i]
            == TimerEvent::Tick(s.remaining - 1 - i) by {
            if i > 0 {
                assert((head + tail)[i] == tail[i - 1]);
            }
        }
        assert((head + tail)[k as int] == tail[k - 1]);
    }
}

/// A session that is started with no time left completes at once, without
/// a tick.
pub proof fn lemma_zero_completes_at_once(s: Session)
    requires
        !s.running,
        s.remaining == 0,
    ensures
        s.start().poll() == TimerStep::Completed(s.mode),
        run_events(s.start(), None) == seq![TimerEvent::Completed(s.mode)],
{
}

} // verus!
