//! The stored settings: the default preset and the push-notification token.

use vstd::prelude::*;
use crate::pomodoro::time::PomodoroTimeMode;

verus! {

/// The settings as they are stored. Either may be missing.
#[derive(Debug, Clone)]
pub struct WxPusherConfig {
    pub time_mode: Option<PomodoroTimeMode>,
    pub spt_token: Option<String>,
}

/// The settings as plain values.
pub struct WxPusherConfigView {
    pub time_mode: Option<PomodoroTimeMode>,
    pub spt_token: Option<Seq<char>>,
}

/// The characters of an optional string.
pub open spec fn token_view(token: Option<String>) -> Option<Seq<char>> {
    match token {
        Some(text) => Some(text@),
        None => None,
    }
}

impl View for WxPusherConfig {
    type V = WxPusherConfigView;

    open spec fn view(&self) -> WxPusherConfigView {
        WxPusherConfigView { time_mode: self.time_mode, spt_token: token_view(self.spt_token) }
    }
}

impl WxPusherConfigView {
    /// The settings used when nothing is stored: the medium preset and no
    /// token.
    pub open spec fn fallback() -> WxPusherConfigView {
        WxPusherConfigView { time_mode: Some(PomodoroTimeMode::Medium), spt_token: None }
    }

    /// The preset to use: the stored one, or medium when none is stored.
    pub open spec fn effective_time_mode(self) -> PomodoroTimeMode {
        match self.time_mode {
            Some(mode) => mode,
            None => PomodoroTimeMode::Medium,
        }
    }
}

impl WxPusherConfig {
    /// Settings with the given token. A missing preset is filled in with
    /// medium.
    pub fn new(time_mode: Option<PomodoroTimeMode>, spt_token: Option<String>) -> (config: Self)
        ensures
            config@.time_mode == Some(
                match time_mode {
                    Some(mode) => mode,
                    None => PomodoroTimeMode::Medium,
                },
            ),
            config@.spt_token == token_view(spt_token),
    {
        WxPusherConfig {
            time_mode: Some(time_mode.unwrap_or(PomodoroTimeMode::Medium)),
            spt_token,
        }
    }

    /// The settings used when nothing is stored.
    pub fn default() -> (config: Self)
        ensures
            config@ == WxPusherConfigView::fallback(),
    {
        WxPusherConfig { time_mode: Some(PomodoroTimeMode::Medium), spt_token: None }
    }

    /// The settings in force, given what the store held: the stored
    /// settings as they are, or the fallback when none could be read.
    pub fn get_config(stored: Option<WxPusherConfig>) -> (config: Self)
        ensures
            config@ == match stored {
                Some(found) => found@,
                None => WxPusherConfigView::fallback(),
            },
    {
        match stored {
            Some(found) => found,
            None => WxPusherConfig::default(),
        }
    }

    /// The preset to use.
    pub fn get_time_mode(&self) -> (mode: PomodoroTimeMode)
        ensures
            mode == self@.effective_time_mode(),
    {
        self.time_mode.unwrap_or(PomodoroTimeMode::Medium)
    }

    /// A copy of the token, if there is one.
    pub fn get_spt_token(&self) -> (token: Option<String>)
        ensures
            token_view(token) == self@.spt_token,
    {
        match &self.spt_token {
            Some(text) => Some(text.clone()),
            None => None,
        }
    }
}

} // verus!
