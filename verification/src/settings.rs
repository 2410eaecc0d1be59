//! The configuration snapshot.
//!
//! One immutable-per-tick set of named options, read by the host's settings
//! surface at the start of each tick and handed to the state machines as a
//! plain value; a change mid-tick is not observed until the next tick.
use vstd::prelude::*;

use crate::states::TimerMode;

verus! {

/// The per-tick configuration snapshot.
#[derive(Clone, Copy, PartialEq, Eq, Structural, Debug)]
pub struct Settings {
    /// Which timing mode's state machine runs.
    pub timer_mode: TimerMode,
    /// Start the timer when a new full-game file is created.
    pub start_new_game: bool,
    /// Start the timer on an individual-level start transition.
    pub start_il: bool,
    /// Split on leaving a level for the stage select.
    pub split_on_level_complete: bool,
    /// Split on leaving a level for the past stage select.
    pub split_on_past_level_complete: bool,
    /// Split when the quick-time-event boss is defeated.
    pub split_spooky_qte: bool,
    /// Split when the final boss is defeated.
    pub split_tocman: bool,
    /// Split on reaching the goal of an individual level.
    pub split_il: bool,
    /// Split on each new boss phase in an individual level.
    pub split_boss_phase: bool,
    /// Split on each checkpoint in an individual level.
    pub split_checkpoint: bool,
    /// Reset the timer when a new file is created.
    pub reset_on_file_creation: bool,
    /// Subtract accumulated bonus time from the displayed time-trial time.
    pub time_trial_discount_bonus: bool,
    /// Skip instead of split when a time-trial split would go backwards.
    pub time_trial_skip_negative: bool,
}

impl Settings {
    /// The documented out-of-the-box configuration.
    pub open spec fn spec_default() -> Settings {
        Settings {
            timer_mode: TimerMode::FullGame,
            start_new_game: true,
            start_il: true,
            split_on_level_complete: true,
            split_on_past_level_complete: true,
            split_spooky_qte: true,
            split_tocman: true,
            split_il: true,
            split_boss_phase: false,
            split_checkpoint: false,
            reset_on_file_creation: true,
            time_trial_discount_bonus: true,
            time_trial_skip_negative: true,
        }
    }
}

impl Default for Settings {
    /// The out-of-the-box configuration.
    fn default() -> (r: Settings)
        ensures
            r == Settings::spec_default(),
    {
        Settings {
            timer_mode: TimerMode::FullGame,
            start_new_game: true,
            start_il: true,
            split_on_level_complete: true,
            split_on_past_level_complete: true,
            split_spooky_qte: true,
            split_tocman: true,
            split_il: true,
            split_boss_phase: false,
            split_checkpoint: false,
            reset_on_file_creation: true,
            time_trial_discount_bonus: true,
            time_trial_skip_negative: true,
        }
    }
}

} // verus!
