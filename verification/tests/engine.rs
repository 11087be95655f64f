use pomodoro_timer::error::TimerError;
use pomodoro_timer::pomodoro::countdown::{
    get_pomodoro_state, set_pomodoro_time_mode, stop_countdown, CountdownMode, ModeChange,
    PomodoroState, PomodoroStateDto, TimerStep,
};
use pomodoro_timer::pomodoro::time::PomodoroTimeMode;
use pomodoro_timer::pomodoro::{
    next_countdown_step, start_pomodoro, stop_pomodoro, tick_countdown,
};
use tokio::sync::oneshot::error::TryRecvError;

#[derive(Debug, Clone, Copy, PartialEq, Eq)]
enum Event {
    Started,
    Tick(i32),
    Completed(CountdownMode),
    Stopped,
}

/// Runs the loop as a host would, with a stop requested during the wait
/// that follows `stop_after` counted seconds.
fn run(state: &mut PomodoroState, stop_after: Option<usize>) -> Vec<Event> {
    let mut events = Vec::new();
    let mut signal = match start_pomodoro(state) {
        Ok(signal) => signal,
        Err(_) => return events,
    };
    events.push(Event::Started);
    let mut ticks = 0;
    loop {
        match next_countdown_step(state) {
            TimerStep::Idle => break,
            TimerStep::Stopped => {
                events.push(Event::Stopped);
                break;
            },
            TimerStep::Completed(ended) => {
                events.push(Event::Completed(ended));
                break;
            },
            TimerStep::Wait => {
                if stop_after == Some(ticks) {
                    stop_countdown(state);
                    assert_eq!(signal.try_recv(), Ok(()));
                } else if let Some(remaining) = tick_countdown(state) {
                    events.push(Event::Tick(remaining));
                    ticks += 1;
                }
            },
        }
    }
    events
}

#[test]
fn a_fresh_session_is_idle_at_the_start_of_work() {
    let state = PomodoroState::new(PomodoroTimeMode::Medium);
    assert_eq!(state.remaining_time, 2700);
    assert_eq!(state.countdown_mode, CountdownMode::Work);
    assert_eq!(state.rest_count, 0);
    assert_eq!(state.time_mode, PomodoroTimeMode::Medium);
    assert!(!state.is_running);
    assert!(!state.should_stop);
    assert!(state.stop_signal.is_none());
}

#[test]
fn snapshot_copies_the_session() {
    let mut state = PomodoroState::new(PomodoroTimeMode::Short);
    state.rest_count = 3;
    state.countdown_mode = CountdownMode::Rest;
    state.remaining_time = 42;
    let expected = PomodoroStateDto {
        remaining_time: 42,
        countdown_mode: CountdownMode::Rest,
        rest_count: 3,
        time_mode: PomodoroTimeMode::Short,
        started: false,
    };
    assert_eq!(state.to_dto(), expected);
    assert_eq!(get_pomodoro_state(&state), expected);
    let _signal = start_pomodoro(&mut state).unwrap();
    assert_eq!(get_pomodoro_state(&state), PomodoroStateDto { started: true, ..expected });
}

#[test]
fn start_marks_the_session_and_arms_the_signal() {
    let mut state = PomodoroState::new(PomodoroTimeMode::Short);
    state.should_stop = true;
    let mut signal = start_pomodoro(&mut state).unwrap();
    assert!(state.is_running);
    assert!(!state.should_stop);
    assert!(state.stop_signal.is_some());
    assert_eq!(state.remaining_time, 1500);
    assert_eq!(signal.try_recv(), Err(TryRecvError::Empty));
}

#[test]
fn a_second_start_is_refused() {
    let mut state = PomodoroState::new(PomodoroTimeMode::Short);
    let mut first = start_pomodoro(&mut state).unwrap();
    let before = state.to_dto();
    match start_pomodoro(&mut state) {
        Err(error) => assert_eq!(error, TimerError::AlreadyRunning),
        Ok(_) => panic!("a running session accepted a start"),
    }
    assert_eq!(state.to_dto(), before);
    assert!(state.stop_signal.is_some());
    // The first countdown's signal is still the one in the session.
    assert_eq!(first.try_recv(), Err(TryRecvError::Empty));
    stop_countdown(&mut state);
    assert_eq!(first.try_recv(), Ok(()));
}

#[test]
fn a_second_start_is_refused_after_ticks_too() {
    let mut state = PomodoroState::new(PomodoroTimeMode::Short);
    let _signal = start_pomodoro(&mut state).unwrap();
    assert_eq!(next_countdown_step(&mut state), TimerStep::Wait);
    assert_eq!(tick_countdown(&mut state), Some(1499));
    assert!(matches!(start_pomodoro(&mut state), Err(TimerError::AlreadyRunning)));
    assert_eq!(state.remaining_time, 1499);
}

#[test]
fn start_is_accepted_again_after_an_ending() {
    let mut state = PomodoroState::new(PomodoroTimeMode::Short);
    assert_eq!(run(&mut state, Some(1)).last(), Some(&Event::Stopped));
    assert!(start_pomodoro(&mut state).is_ok());
    assert!(state.is_running);
    assert!(!state.should_stop);
}

#[test]
fn stop_on_an_idle_session_changes_nothing() {
    let mut state = PomodoroState::new(PomodoroTimeMode::Medium);
    let before = state.to_dto();
    stop_countdown(&mut state);
    assert_eq!(state.to_dto(), before);
    assert!(!state.should_stop);
    assert!(state.stop_signal.is_none());
    assert_eq!(stop_pomodoro(&mut state), Ok(()));
    assert_eq!(state.to_dto(), before);
    assert!(!state.should_stop);
    // Nothing to announce, and no second is counted.
    assert_eq!(next_countdown_step(&mut state), TimerStep::Idle);
    assert_eq!(tick_countdown(&mut state), None);
    assert_eq!(state.to_dto(), before);
}

#[test]
fn a_full_run_of_three_seconds() {
    let mut state = PomodoroState::new(PomodoroTimeMode::Medium);
    state.remaining_time = 3;
    let events = run(&mut state, None);
    assert_eq!(
        events,
        vec![
            Event::Started,
            Event::Tick(2),
            Event::Tick(1),
            Event::Tick(0),
            Event::Completed(CountdownMode::Work),
        ]
    );
    assert!(!events.contains(&Event::Stopped));
    assert!(!state.is_running);
    assert!(state.stop_signal.is_none());
    assert_eq!(state.countdown_mode, CountdownMode::Rest);
    assert_eq!(state.remaining_time, 600);
    assert_eq!(state.rest_count, 0);
}

#[test]
fn cancelling_after_one_tick_of_five() {
    let mut state = PomodoroState::new(PomodoroTimeMode::Medium);
    state.remaining_time = 5;
    state.rest_count = 2;
    let events = run(&mut state, Some(1));
    assert_eq!(events, vec![Event::Started, Event::Tick(4), Event::Stopped]);
    assert_eq!(state.countdown_mode, CountdownMode::Work);
    assert_eq!(state.rest_count, 2);
    assert_eq!(state.remaining_time, 4);
    assert!(!state.is_running);
    assert!(state.stop_signal.is_none());
}

#[test]
fn cancelling_before_the_first_tick() {
    let mut state = PomodoroState::new(PomodoroTimeMode::Long);
    let mut signal = start_pomodoro(&mut state).unwrap();
    // The request comes before the loop has looked at the session at all.
    stop_countdown(&mut state);
    assert!(state.should_stop);
    assert_eq!(signal.try_recv(), Ok(()));
    assert_eq!(next_countdown_step(&mut state), TimerStep::Stopped);
    assert_eq!(state.remaining_time, 3600);
    assert_eq!(state.countdown_mode, CountdownMode::Work);
    assert!(!state.is_running);
}

#[test]
fn no_second_is_counted_after_a_stop_request() {
    let mut state = PomodoroState::new(PomodoroTimeMode::Short);
    let _signal = start_pomodoro(&mut state).unwrap();
    assert_eq!(tick_countdown(&mut state), Some(1499));
    stop_countdown(&mut state);
    assert_eq!(tick_countdown(&mut state), None);
    assert_eq!(state.remaining_time, 1499);
}

#[test]
fn stop_fires_the_signal_once() {
    let mut state = PomodoroState::new(PomodoroTimeMode::Short);
    let mut signal = start_pomodoro(&mut state).unwrap();
    assert_eq!(stop_pomodoro(&mut state), Ok(()));
    assert!(state.stop_signal.is_none());
    assert!(state.is_running);
    assert_eq!(signal.try_recv(), Ok(()));
    // A second request finds no signal left and changes nothing more.
    let before = state.to_dto();
    stop_countdown(&mut state);
    assert_eq!(state.to_dto(), before);
    assert!(state.should_stop);
    assert_eq!(signal.try_recv(), Err(TryRecvError::Closed));
}

#[test]
fn stop_survives_a_host_that_no_longer_listens() {
    let mut state = PomodoroState::new(PomodoroTimeMode::Short);
    let signal = start_pomodoro(&mut state).unwrap();
    drop(signal);
    stop_countdown(&mut state);
    assert!(state.should_stop);
    assert_eq!(next_countdown_step(&mut state), TimerStep::Stopped);
}

#[test]
fn completion_drops_the_signal_unfired() {
    let mut state = PomodoroState::new(PomodoroTimeMode::Short);
    state.remaining_time = 1;
    let mut signal = start_pomodoro(&mut state).unwrap();
    assert_eq!(next_countdown_step(&mut state), TimerStep::Wait);
    assert_eq!(tick_countdown(&mut state), Some(0));
    assert_eq!(next_countdown_step(&mut state), TimerStep::Completed(CountdownMode::Work));
    assert_eq!(signal.try_recv(), Err(TryRecvError::Closed));
}

#[test]
fn starting_with_nothing_left_completes_at_once() {
    let mut state = PomodoroState::new(PomodoroTimeMode::Short);
    state.remaining_time = 0;
    state.countdown_mode = CountdownMode::Rest;
    state.rest_count = 1;
    let events = run(&mut state, None);
    assert_eq!(events, vec![Event::Started, Event::Completed(CountdownMode::Rest)]);
    assert_eq!(state.countdown_mode, CountdownMode::Work);
    assert_eq!(state.rest_count, 2);
    assert_eq!(state.remaining_time, 1500);
}

#[test]
fn a_stop_at_zero_wins_over_completion() {
    let mut state = PomodoroState::new(PomodoroTimeMode::Short);
    state.remaining_time = 1;
    let _signal = start_pomodoro(&mut state).unwrap();
    assert_eq!(tick_countdown(&mut state), Some(0));
    stop_countdown(&mut state);
    assert_eq!(next_countdown_step(&mut state), TimerStep::Stopped);
    assert_eq!(state.countdown_mode, CountdownMode::Work);
    assert_eq!(state.remaining_time, 0);
    assert_eq!(state.rest_count, 0);
}

#[test]
fn waiting_changes_nothing() {
    let mut state = PomodoroState::new(PomodoroTimeMode::Short);
    let _signal = start_pomodoro(&mut state).unwrap();
    let before = state.to_dto();
    assert_eq!(next_countdown_step(&mut state), TimerStep::Wait);
    assert_eq!(next_countdown_step(&mut state), TimerStep::Wait);
    assert_eq!(state.to_dto(), before);
    assert!(state.stop_signal.is_some());
}

#[test]
fn ticks_count_down_without_gaps() {
    let mut state = PomodoroState::new(PomodoroTimeMode::Short);
    state.remaining_time = 50;
    let events = run(&mut state, None);
    assert_eq!(events.len(), 52);
    for (i, event) in events[1..51].iter().enumerate() {
        assert_eq!(*event, Event::Tick(49 - i as i32));
    }
    assert_eq!(events[51], Event::Completed(CountdownMode::Work));
}

#[test]
fn set_time_mode_on_an_idle_session_starts_over() {
    let mut state = PomodoroState::new(PomodoroTimeMode::Medium);
    state.countdown_mode = CountdownMode::Rest;
    state.rest_count = 5;
    state.remaining_time = 17;
    assert_eq!(set_pomodoro_time_mode(PomodoroTimeMode::Short, &mut state), ModeChange::Applied);
    assert_eq!(
        state.to_dto(),
        PomodoroStateDto {
            remaining_time: 1500,
            countdown_mode: CountdownMode::Work,
            rest_count: 0,
            time_mode: PomodoroTimeMode::Short,
            started: false,
        }
    );
}

#[test]
fn set_time_mode_while_running_stops_first() {
    let mut state = PomodoroState::new(PomodoroTimeMode::Medium);
    let mut signal = start_pomodoro(&mut state).unwrap();
    assert_eq!(next_countdown_step(&mut state), TimerStep::Wait);
    assert_eq!(tick_countdown(&mut state), Some(2699));

    // The request defers: it only asks the countdown to stop.
    assert_eq!(set_pomodoro_time_mode(PomodoroTimeMode::Long, &mut state), ModeChange::Deferred);
    assert_eq!(state.time_mode, PomodoroTimeMode::Medium);
    assert_eq!(state.remaining_time, 2699);
    assert!(state.is_running);
    assert_eq!(signal.try_recv(), Ok(()));

    // The loop observes the stop.
    assert_eq!(next_countdown_step(&mut state), TimerStep::Stopped);
    assert!(!state.is_running);

    // Asked again, the change applies.
    assert_eq!(set_pomodoro_time_mode(PomodoroTimeMode::Long, &mut state), ModeChange::Applied);
    assert_eq!(
        state.to_dto(),
        PomodoroStateDto {
            remaining_time: 3600,
            countdown_mode: CountdownMode::Work,
            rest_count: 0,
            time_mode: PomodoroTimeMode::Long,
            started: false,
        }
    );
}

#[test]
fn a_rest_is_counted_once_and_only_on_completion() {
    let mut state = PomodoroState::new(PomodoroTimeMode::Short);
    state.countdown_mode = CountdownMode::Rest;
    state.remaining_time = 2;
    // Cancelled rest: not counted.
    assert_eq!(run(&mut state, Some(1)).last(), Some(&Event::Stopped));
    assert_eq!(state.rest_count, 0);
    assert_eq!(state.countdown_mode, CountdownMode::Rest);
    // Resumed and completed: counted once.
    assert_eq!(run(&mut state, None).last(), Some(&Event::Completed(CountdownMode::Rest)));
    assert_eq!(state.rest_count, 1);
    // Completed work: not counted.
    state.remaining_time = 0;
    assert_eq!(run(&mut state, None).last(), Some(&Event::Completed(CountdownMode::Work)));
    assert_eq!(state.rest_count, 1);
}
