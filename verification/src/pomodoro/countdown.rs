//! The session: the one record of the engine's state, its mathematical
//! model, and the commands that act on it between ticks.

use vstd::prelude::*;
use tokio::sync::oneshot::Sender;
use crate::pomodoro::cycle::next_round;
use crate::pomodoro::time::PomodoroTimeMode;

verus! {

/// What the timer is counting down. A long rest is a rest with another
/// length, not a phase of its own.
#[derive(Debug, Clone, Copy, PartialEq, Eq, Structural)]
pub enum CountdownMode {
    Work,
    Rest,
}

/// The engine's state. One value holds all of it, so that a host which
/// shares it between tasks guards it with a single lock and no reader sees
/// a half-made update.
#[derive(Debug)]
pub struct PomodoroState {
    /// Seconds left in the current phase.
    pub remaining_time: i32,
    /// The current phase.
    pub countdown_mode: CountdownMode,
    /// Rests completed since the preset was last set.
    pub rest_count: i32,
    /// The active preset.
    pub time_mode: PomodoroTimeMode,
    /// True from a successful start until the countdown has ended.
    pub is_running: bool,
    /// The wake signal of the running countdown, until it is fired.
    pub stop_signal: Option<Sender<()>>,
    /// The lasting mark of a stop request, read by the countdown at each
    /// step, so that a request is never lost between a check and a wait.
    pub should_stop: bool,
}

/// A snapshot of the session for observers.
#[derive(Debug, Clone, Copy, PartialEq, Eq, Structural)]
pub struct PomodoroStateDto {
    pub remaining_time: i32,
    pub countdown_mode: CountdownMode,
    pub rest_count: i32,
    pub time_mode: PomodoroTimeMode,
    pub started: bool,
}

/// What the countdown loop does next.
#[derive(Debug, Clone, Copy, PartialEq, Eq, Structural)]
pub enum TimerStep {
    /// No countdown is running: there is nothing to do and nothing to
    /// announce.
    Idle,
    /// Wait one second or until the wake signal, whichever comes first.
    Wait,
    /// The countdown was cancelled and has ended.
    Stopped,
    /// The phase ran out and the countdown has ended; the phase named is
    /// the one that just ended.
    Completed(CountdownMode),
}

/// The outcome of a request to change the preset.
#[derive(Debug, Clone, Copy, PartialEq, Eq, Structural)]
pub enum ModeChange {
    /// The session was idle and now starts over on the new preset.
    Applied,
    /// A countdown is running. It has been asked to stop and nothing else
    /// was changed: ask again once it has ended.
    Deferred,
}

/// The mathematical model of a session.
pub struct Session {
    pub remaining: int,
    pub mode: CountdownMode,
    pub rest_count: int,
    pub time_mode: PomodoroTimeMode,
    pub running: bool,
    pub stop_requested: bool,
    /// A wake signal is outstanding: made at start and not yet fired.
    pub signal_armed: bool,
}

impl Session {
    /// Counters are not negative, and only a running countdown has a wake
    /// signal outstanding.
    pub open spec fn wf(self) -> bool {
        &&& self.remaining >= 0
        &&& self.rest_count >= 0
        &&& self.signal_armed ==> self.running
    }

    /// The session at process start: idle, at the beginning of a work phase
    /// of `time_mode`.
    pub open spec fn fresh(time_mode: PomodoroTimeMode) -> Session {
        Session {
            remaining: time_mode.config().work_time as int,
            mode: CountdownMode::Work,
            rest_count: 0,
            time_mode,
            running: false,
            stop_requested: false,
            signal_armed: false,
        }
    }

    /// The session after a start that was accepted: running, with no stop
    /// request pending and a fresh wake signal.
    pub open spec fn start(self) -> Session {
        Session { running: true, stop_requested: false, signal_armed: true, ..self }
    }

    /// The session after a stop request. An idle session is left as it is.
    /// A running one is marked, and its wake signal is used up.
    pub open spec fn request_stop(self) -> Session {
        if self.running {
            Session { stop_requested: true, signal_armed: false, ..self }
        } else {
            self
        }
    }

    /// A second may be counted: a countdown is running, nobody asked it to
    /// stop, and time is left.
    pub open spec fn can_tick(self) -> bool {
        self.running && !self.stop_requested && self.remaining > 0
    }

    /// The session after one second has passed.
    pub open spec fn tick(self) -> Session {
        if self.can_tick() {
            Session { remaining: self.remaining - 1, ..self }
        } else {
            self
        }
    }

    /// The session after its phase ran out: the next phase of the cycle,
    /// loaded with its full length.
    pub open spec fn complete(self) -> Session {
        let next = next_round(self.mode, self.rest_count, self.time_mode.config());
        Session { mode: next.0, rest_count: next.1, remaining: next.2, ..self }
    }

    /// What the countdown loop does next.
    pub open spec fn poll(self) -> TimerStep {
        if !self.running {
            TimerStep::Idle
        } else if self.stop_requested {
            TimerStep::Stopped
        } else if self.remaining > 0 {
            TimerStep::Wait
        } else {
            TimerStep::Completed(self.mode)
        }
    }

    /// The session after the loop took the step that `poll` names. Both
    /// endings clear `running` and drop the wake signal; only running out
    /// moves the cycle on.
    pub open spec fn after_poll(self) -> Session {
        match self.poll() {
            TimerStep::Idle => self,
            TimerStep::Wait => self,
            TimerStep::Stopped => Session { running: false, signal_armed: false, ..self },
            TimerStep::Completed(_) => Session {
                running: false,
                signal_armed: false,
                ..self.complete()
            },
        }
    }

    /// The session after the preset was set on it: the beginning of a work
    /// phase of `time_mode`, with no rest counted.
    pub open spec fn reset(self, time_mode: PomodoroTimeMode) -> Session {
        Session {
            time_mode,
            remaining: time_mode.config().work_time as int,
            mode: CountdownMode::Work,
            rest_count: 0,
            ..self
        }
    }

    /// The counter of rests has room for the rest that is about to be
    /// counted.
    pub open spec fn round_fits(self) -> bool {
        self.mode is Rest ==> self.rest_count < i32::MAX
    }

    /// The step that `poll` names can be taken: it is not the completion of
    /// a rest for which the counter has no room.
    pub open spec fn can_step(self) -> bool {
        self.poll() is Completed ==> self.round_fits()
    }
}

impl View for PomodoroState {
    type V = Session;

    open spec fn view(&self) -> Session {
        Session {
            remaining: self.remaining_time as int,
            mode: self.countdown_mode,
            rest_count: self.rest_count as int,
            time_mode: self.time_mode,
            running: self.is_running,
            stop_requested: self.should_stop,
            signal_armed: self.stop_signal is Some,
        }
    }
}

impl PomodoroState {
    /// The session at process start.
    pub fn new(time_mode: PomodoroTimeMode) -> (state: PomodoroState)
        ensures
            state@ == Session::fresh(time_mode),
            state@.wf(),
    {
        PomodoroState {
            remaining_time: time_mode.get_config().work_time,
            countdown_mode: CountdownMode::Work,
            rest_count: 0,
            time_mode,
            is_running: false,
            stop_signal: None,
            should_stop: false,
        }
    }

    /// Whether the rest counter has room for the rest that would be counted
    /// if the current phase ran out now. It always has during work.
    pub fn round_fits(&self) -> (fits: bool)
        ensures
            fits == self@.round_fits(),
    {
        match self.countdown_mode {
            CountdownMode::Work => true,
            CountdownMode::Rest => self.rest_count < i32::MAX,
        }
    }

    /// Copies what observers may see.
    pub fn to_dto(&self) -> (dto: PomodoroStateDto)
        ensures
            dto.remaining_time == self.remaining_time,
            dto.countdown_mode == self.countdown_mode,
            dto.rest_count == self.rest_count,
            dto.time_mode == self.time_mode,
            dto.started == self.is_running,
    {
        PomodoroStateDto {
            remaining_time: self.remaining_time,
            started: self.is_running,
            countdown_mode: self.countdown_mode,
            rest_count: self.rest_count,
            time_mode: self.time_mode,
        }
    }
}

/// The snapshot command: the session as observers may see it.
pub fn get_pomodoro_state(state: &PomodoroState) -> (dto: PomodoroStateDto)
    ensures
        dto.remaining_time == state.remaining_time,
        dto.countdown_mode == state.countdown_mode,
        dto.rest_count == state.rest_count,
        dto.time_mode == state.time_mode,
        dto.started == state.is_running,
{
    state.to_dto()
}

/// Asks the running countdown to stop.
///
/// On an idle session nothing happens. On a running one the request is
/// marked and the wake signal, if it is still there, is fired; the countdown
/// ends at its next step. Time left, phase and rest counter are not touched.
pub fn stop_countdown(state: &mut PomodoroState)
    ensures
        final(state)@ == old(state)@.request_stop(),
        !old(state).is_running ==> *final(state) == *old(state),
        old(state)@.wf() ==> final(state)@.wf(),
{
    if state.is_running {
        state.should_stop = true;
        if let Some(signal) = state.stop_signal.take() {
            let _ = signal.send(());
        }
    }
}

/// Sets the preset.
///
/// An idle session starts over on `time_mode`: work phase, full work
/// length, no rest counted. A running session is asked to stop instead and
/// is otherwise left alone: the caller waits until it has ended and asks
/// again.
pub fn set_pomodoro_time_mode(time_mode: PomodoroTimeMode, state: &mut PomodoroState) -> (change:
    ModeChange)
    ensures
        old(state).is_running ==> change == ModeChange::Deferred && final(state)@ == old(
            state,
        )@.request_stop(),
        !old(state).is_running ==> change == ModeChange::Applied && final(state)@ == old(
            state,
        )@.reset(time_mode),
        !old(state).is_running ==> final(state).stop_signal == old(state).stop_signal,
        old(state)@.wf() ==> final(state)@.wf(),
{
    if state.is_running {
        stop_countdown(state);
        return ModeChange::Deferred;
    }
    state.time_mode = time_mode;
    state.remaining_time = time_mode.get_config().work_time;
    state.countdown_mode = CountdownMode::Work;
    state.rest_count = 0;
    ModeChange::Applied
}

} // verus!
