//! The work/rest cycle: which phase follows which, and for how long.

use vstd::prelude::*;
use crate::pomodoro::countdown::CountdownMode;
use crate::pomodoro::time::PomodoroTime;

verus! {

/// Whether the rest that follows a work interval is a long one: after an
/// even, non-zero number of completed rests.
pub open spec fn long_rest_due(rest_count: int) -> bool {
    rest_count > 0 && rest_count % 2 == 0
}

/// The phase that follows `mode`, the rest counter after it, and the length
/// of the new phase.
///
/// Work is followed by rest, with the counter unchanged. Rest is followed by
/// work, and the finished rest is counted.
pub open spec fn next_round(mode: CountdownMode, rest_count: int, config: PomodoroTime) -> (
    CountdownMode,
    int,
    int,
) {
    match mode {
        CountdownMode::Work => (
            CountdownMode::Rest,
            rest_count,
            if long_rest_due(rest_count) {
                config.long_rest_time as int
            } else {
                config.short_rest_time as int
            },
        ),
        CountdownMode::Rest => (CountdownMode::Work, rest_count + 1, config.work_time as int),
    }
}

/// Computes the round that follows the one that just ran out.
///
/// The counter of finished rests must leave room for one more when a rest
/// ends.
pub fn advance(mode: CountdownMode, rest_count: i32, config: &PomodoroTime) -> (next: (
    CountdownMode,
    i32,
    i32,
))
    requires
        mode is Rest ==> rest_count < i32::MAX,
    ensures
        (next.0, next.1 as int, next.2 as int) == next_round(mode, rest_count as int, *config),
{
    match mode {
        CountdownMode::Work => {
            let duration: i32 = if rest_count > 0 && rest_count % 2 == 0 {
                config.long_rest_time
            } else {
                config.short_rest_time
            };
            (CountdownMode::Rest, rest_count, duration)
        },
        CountdownMode::Rest => (CountdownMode::Work, rest_count + 1, config.work_time),
    }
}

/// Work always leads to rest and leaves the counter alone; rest always
/// leads to work of the preset's work length and adds one to the counter.
pub proof fn lemma_phases_alternate(rest_count: int, config: PomodoroTime)
    ensures
        next_round(CountdownMode::Work, rest_count, config).0 == CountdownMode::Rest,
        next_round(CountdownMode::Work, rest_count, config).1 == rest_count,
        next_round(CountdownMode::Rest, rest_count, config) == (
            CountdownMode::Work,
            rest_count + 1,
            config.work_time as int,
        ),
{
}

/// The rest after work is long exactly when the counter is even and
/// positive, and short otherwise: short at 0, 1 and 3, long at 2 and 4.
pub proof fn lemma_rest_length(rest_count: int, config: PomodoroTime)
    ensures
        next_round(CountdownMode::Work, rest_count, config).2 == if rest_count > 0 && rest_count
            % 2 == 0 {
            config.long_rest_time as int
        } else {
            config.short_rest_time as int
        },
        next_round(CountdownMode::Work, 0, config).2 == config.short_rest_time,
        next_round(CountdownMode::Work, 1, config).2 == config.short_rest_time,
        next_round(CountdownMode::Work, 2, config).2 == config.long_rest_time,
        next_round(CountdownMode::Work, 3, config).2 == config.short_rest_time,
        next_round(CountdownMode::Work, 4, config).2 == config.long_rest_time,
{
}

} // verus!
