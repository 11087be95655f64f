//! The countdown/cycle engine.
//!
//! The engine never sleeps, waits or announces anything itself. A host runs
//! the loop: it calls `start_pomodoro`, then asks `next_countdown_step` what
//! to do, waits where it is told to, reports each elapsed second with
//! `tick_countdown`, and announces what the calls return.

pub mod countdown;
pub mod cycle;
pub mod laws;
pub mod signal;
pub mod time;

use vstd::prelude::*;
use vstd::string::StringExecFns;
use tokio::sync::oneshot::Receiver;
use crate::config::WxPusherConfig;
use crate::error::TimerError;
use crate::pomodoro::countdown::{stop_countdown, CountdownMode, PomodoroState, TimerStep};
use crate::pomodoro::cycle::advance;

verus! {

/// Starts a countdown of the time that the session has left.
///
/// A session that is already running refuses, and is left as it is.
/// Otherwise the session is marked as running, an earlier stop request and
/// an earlier wake signal are forgotten, and a fresh wake signal is made:
/// its sending half stays in the session, its receiving half is returned
/// for the host to wait on.
pub fn start_pomodoro(state: &mut PomodoroState) -> (started: Result<Receiver<()>, TimerError>)
    ensures
        old(state).is_running ==> started == Err::<Receiver<()>, TimerError>(
            TimerError::AlreadyRunning,
        ) && *final(state) == *old(state),
        !old(state).is_running ==> started is Ok && final(state)@ == old(state)@.start(),
        old(state)@.wf() ==> final(state)@.wf(),
{
    if state.is_running {
        return Err(TimerError::AlreadyRunning);
    }
    state.is_running = true;
    state.should_stop = false;
    let (stop_tx, stop_rx) = tokio::sync::oneshot::channel();
    state.stop_signal = Some(stop_tx);
    Ok(stop_rx)
}

/// Counts one elapsed second.
///
/// While a countdown runs, has not been asked to stop and has time left,
/// the time left goes down by one and the new value is returned for
/// announcing. In every other case nothing changes and nothing is returned.
/// Phase, rest counter and wake signal are never touched.
pub fn tick_countdown(state: &mut PomodoroState) -> (remaining: Option<i32>)
    ensures
        final(state)@ == old(state)@.tick(),
        final(state).stop_signal == old(state).stop_signal,
        old(state)@.can_tick() ==> remaining == Some((old(state).remaining_time - 1) as i32),
        !old(state)@.can_tick() ==> remaining is None && *final(state) == *old(state),
        old(state)@.wf() ==> final(state)@.wf(),
{
    if state.is_running && !state.should_stop && state.remaining_time > 0 {
        state.remaining_time = state.remaining_time - 1;
        Some(state.remaining_time)
    } else {
        None
    }
}

/// Moves the cycle on after a phase ran out, and returns the phase that
/// ended.
///
/// After work comes rest: long if an even, non-zero number of rests has been
/// completed, short otherwise. After rest comes work, and the rest is
/// counted. The new phase is loaded with its full length. Nothing else in
/// the session changes.
pub fn countdown_complete(state: &mut PomodoroState) -> (ended: CountdownMode)
    requires
        old(state)@.round_fits(),
    ensures
        ended == old(state).countdown_mode,
        final(state)@ == old(state)@.complete(),
        final(state).stop_signal == old(state).stop_signal,
        old(state)@.wf() ==> final(state)@.wf(),
{
    let ended = state.countdown_mode;
    let config = state.time_mode.get_config();
    let next = advance(state.countdown_mode, state.rest_count, &config);
    state.countdown_mode = next.0;
    state.rest_count = next.1;
    state.remaining_time = next.2;
    ended
}

/// Decides what the countdown loop does next, and ends the countdown when
/// it is over.
///
/// An idle session has nothing to do. A running one that was asked to stop
/// ends as stopped, however much time is left, with time, phase and rest
/// counter untouched. Otherwise it waits while time is left, and ends as
/// completed once none is, moving the cycle on. Both endings drop the wake
/// signal and clear the running mark last, so that the session can be
/// started again.
pub fn next_countdown_step(state: &mut PomodoroState) -> (step: TimerStep)
    requires
        old(state)@.can_step(),
    ensures
        step == old(state)@.poll(),
        final(state)@ == old(state)@.after_poll(),
        step is Idle || step is Wait ==> *final(state) == *old(state),
        old(state)@.wf() ==> final(state)@.wf(),
{
    if !state.is_running {
        return TimerStep::Idle;
    }
    if !state.should_stop && state.remaining_time > 0 {
        return TimerStep::Wait;
    }
    state.stop_signal = None;
    let step = if state.should_stop {
        TimerStep::Stopped
    } else {
        TimerStep::Completed(countdown_complete(state))
    };
    state.is_running = false;
    step
}

/// Takes the next step of the countdown loop wherever it can be taken.
///
/// The one step that cannot be taken is the completion of a rest when the
/// counter of rests is full. Then nothing is returned and the session is
/// left as it is. In every other case this is `next_countdown_step`.
pub fn checked_countdown_step(state: &mut PomodoroState) -> (step: Option<TimerStep>)
    ensures
        old(state)@.can_step() ==> step == Some(old(state)@.poll()),
        old(state)@.can_step() ==> final(state)@ == old(state)@.after_poll(),
        !old(state)@.can_step() ==> step is None,
        !old(state)@.can_step() ==> *final(state) == *old(state),
        step == Some(TimerStep::Idle) || step == Some(TimerStep::Wait) ==> *final(state) == *old(
            state,
        ),
        old(state)@.wf() ==> final(state)@.wf(),
{
    let completing = state.is_running && !state.should_stop && state.remaining_time <= 0;
    if completing && !state.round_fits() {
        None
    } else {
        Some(next_countdown_step(state))
    }
}

/// The stop command. It always succeeds; see `stop_countdown`.
pub fn stop_pomodoro(state: &mut PomodoroState) -> (stopped: Result<(), TimerError>)
    ensures
        stopped is Ok,
        final(state)@ == old(state)@.request_stop(),
        !old(state).is_running ==> *final(state) == *old(state),
        old(state)@.wf() ==> final(state)@.wf(),
{
    stop_countdown(state);
    Ok(())
}

/// A push notification that is ready to be sent.
#[derive(Debug, Clone)]
pub struct WxMessage {
    pub content: String,
    pub summary: String,
    pub content_type: i32,
    pub spt: String,
}

/// The notice for the end of a phase.
pub open spec fn end_notice(ended: CountdownMode) -> Seq<char> {
    match ended {
        CountdownMode::Work => "工作时间结束，休息一下吧"@,
        CountdownMode::Rest => "休息时间结束，继续工作吧"@,
    }
}

/// The notice for the end of a phase.
pub fn wx_message_content(ended: CountdownMode) -> (text: &'static str)
    ensures
        text@ == end_notice(ended),
{
    match ended {
        CountdownMode::Work => "工作时间结束，休息一下吧",
        CountdownMode::Rest => "休息时间结束，继续工作吧",
    }
}

/// Decides whether the end of a phase is pushed, and with what.
///
/// Without a token nothing is sent. With one, the message carries the
/// notice for the phase that ended as content and as summary, content type
/// 1 (plain text), and the token.
pub fn prepare_wx_message(config: &WxPusherConfig, ended: CountdownMode) -> (message: Option<
    WxMessage,
>)
    ensures
        config@.spt_token is None ==> message is None,
        config@.spt_token matches Some(token) ==> {
            &&& message matches Some(m)
            &&& m.content@ == end_notice(ended)
            &&& m.summary@ == end_notice(ended)
            &&& m.content_type == 1
            &&& m.spt@ == token
        },
{
    match config.get_spt_token() {
        None => None,
        Some(token) => {
            let content = wx_message_content(ended);
            Some(
                WxMessage {
                    content: String::from_str(content),
                    summary: String::from_str(content),
                    content_type: 1,
                    spt: token,
                },
            )
        },
    }
}

} // verus!
