//! Interval presets: each names a work length and two rest lengths.

use vstd::prelude::*;

verus! {

/// A named bundle of interval lengths.
#[derive(Debug, Clone, Copy, PartialEq, Eq, Structural)]
pub enum PomodoroTimeMode {
    Short,
    Medium,
    Long,
}

/// The three interval lengths of a preset, in seconds.
#[derive(Debug, Clone, Copy, PartialEq, Eq, Structural)]
pub struct PomodoroTime {
    pub work_time: i32,
    pub short_rest_time: i32,
    pub long_rest_time: i32,
}

/// Seconds in `minutes` minutes.
pub open spec fn minutes(minutes: int) -> int {
    minutes * 60
}

impl PomodoroTime {
    /// Every interval lasts at least one second.
    pub open spec fn positive(self) -> bool {
        self.work_time > 0 && self.short_rest_time > 0 && self.long_rest_time > 0
    }
}

impl PomodoroTimeMode {
    /// The interval lengths that the preset stands for.
    pub open spec fn config(self) -> PomodoroTime {
        match self {
            PomodoroTimeMode::Short => PomodoroTime {
                work_time: minutes(25) as i32,
                short_rest_time: minutes(5) as i32,
                long_rest_time: minutes(15) as i32,
            },
            PomodoroTimeMode::Medium => PomodoroTime {
                work_time: minutes(45) as i32,
                short_rest_time: minutes(10) as i32,
                long_rest_time: minutes(20) as i32,
            },
            PomodoroTimeMode::Long => PomodoroTime {
                work_time: minutes(60) as i32,
                short_rest_time: minutes(15) as i32,
                long_rest_time: minutes(30) as i32,
            },
        }
    }

    /// Looks the preset up. Total: every preset has its lengths.
    pub fn get_config(&self) -> (config: PomodoroTime)
        ensures
            config == self.config(),
    {
        match self {
            Self::Short => PomodoroTime {
                work_time: 25 * 60,
                short_rest_time: 5 * 60,
                long_rest_time: 15 * 60,
            },
            Self::Medium => PomodoroTime {
                work_time: 45 * 60,
                short_rest_time: 10 * 60,
                long_rest_time: 20 * 60,
            },
            Self::Long => PomodoroTime {
                work_time: 60 * 60,
                short_rest_time: 15 * 60,
                long_rest_time: 30 * 60,
            },
        }
    }
}

/// The lengths of each preset in seconds: 1500/300/900, 2700/600/1200 and
/// 3600/900/1800. All are positive, and a preset always maps to the same
/// lengths.
pub proof fn lemma_preset_table(mode: PomodoroTimeMode)
    ensures
        mode.config().positive(),
        mode is Short ==> mode.config() == (PomodoroTime {
            work_time: 1500,
            short_rest_time: 300,
            long_rest_time: 900,
        }),
        mode is Medium ==> mode.config() == (PomodoroTime {
            work_time: 2700,
            short_rest_time: 600,
            long_rest_time: 1200,
        }),
        mode is Long ==> mode.config() == (PomodoroTime {
            work_time: 3600,
            short_rest_time: 900,
            long_rest_time: 1800,
        }),
{
}

} // verus!
