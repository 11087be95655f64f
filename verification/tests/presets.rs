use pomodoro_timer::pomodoro::time::{PomodoroTime, PomodoroTimeMode};

#[test]
fn short_preset_lengths() {
    let config = PomodoroTimeMode::Short.get_config();
    assert_eq!(config.work_time, 1500);
    assert_eq!(config.short_rest_time, 300);
    assert_eq!(config.long_rest_time, 900);
}

#[test]
fn medium_preset_lengths() {
    let config = PomodoroTimeMode::Medium.get_config();
    assert_eq!(config.work_time, 2700);
    assert_eq!(config.short_rest_time, 600);
    assert_eq!(config.long_rest_time, 1200);
}

#[test]
fn long_preset_lengths() {
    let config = PomodoroTimeMode::Long.get_config();
    assert_eq!(config.work_time, 3600);
    assert_eq!(config.short_rest_time, 900);
    assert_eq!(config.long_rest_time, 1800);
}

#[test]
fn preset_lookup_is_repeatable() {
    for mode in [PomodoroTimeMode::Short, PomodoroTimeMode::Medium, PomodoroTimeMode::Long] {
        let first = mode.get_config();
        let second = mode.get_config();
        assert_eq!(first, second);
    }
}

#[test]
fn preset_lengths_are_positive() {
    for mode in [PomodoroTimeMode::Short, PomodoroTimeMode::Medium, PomodoroTimeMode::Long] {
        let PomodoroTime { work_time, short_rest_time, long_rest_time } = mode.get_config();
        assert!(work_time > 0);
        assert!(short_rest_time > 0);
        assert!(long_rest_time > 0);
    }
}
