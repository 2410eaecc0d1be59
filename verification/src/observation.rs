//! The edge-triggered watcher engine.
//!
//! Every tracked game quantity is held in a [`Watcher`]: a pair of the value
//! from the prior tick and the value from the current tick, replaced
//! wholesale on every update. Edges (changed / increased / decreased) are
//! computed purely from the pair. A watcher never fails: a read failure
//! upstream must be mapped to a default value before the update, so every
//! downstream consumer is isolated from transient unreadability.
use vstd::prelude::*;

use crate::states::PlayerState;
use crate::states::StageState;
use crate::states::Stages;
use crate::states::TimeTrialState;

verus! {

/// An observation of one tracked quantity: the value from the prior tick
/// and the value from the current tick, replaced wholesale every tick.
pub struct Observation<T> {
    pub previous: T,
    pub current: T,
}

impl<T> Observation<T> {
    /// Whether the quantity changed between the prior and the current tick.
    pub open spec fn spec_changed(self) -> bool {
        self.previous != self.current
    }
}

impl Observation<i32> {
    pub fn changed(&self) -> (r: bool)
        ensures
            r == self.spec_changed(),
    {
        self.previous != self.current
    }

    pub fn increased(&self) -> (r: bool)
        ensures
            r == (self.current > self.previous),
    {
        self.current > self.previous
    }

    pub fn decreased(&self) -> (r: bool)
        ensures
            r == (self.current < self.previous),
    {
        self.current < self.previous
    }
}

impl Observation<u32> {
    pub fn changed(&self) -> (r: bool)
        ensures
            r == self.spec_changed(),
    {
        self.previous != self.current
    }

    pub fn increased(&self) -> (r: bool)
        ensures
            r == (self.current > self.previous),
    {
        self.current > self.previous
    }

    pub fn decreased(&self) -> (r: bool)
        ensures
            r == (self.current < self.previous),
    {
        self.current < self.previous
    }
}

impl Observation<bool> {
    pub fn changed(&self) -> (r: bool)
        ensures
            r == self.spec_changed(),
    {
        self.previous != self.current
    }
}

/// One tracked quantity: its zero value (substituted while no tick has been
/// observed yet) and, once a tick has run, its observation pair.
pub struct Watcher<T> {
    pub zero: T,
    pub pair: Option<Observation<T>>,
}

impl<T: Copy> Watcher<T> {
    /// A watcher that has observed nothing yet.
    pub fn new(zero: T) -> (r: Watcher<T>)
        ensures
            r.zero == zero,
            r.pair is None,
    {
        Watcher { zero, pair: None }
    }

    /// What one update does: the stored current value (the zero value before
    /// the first tick) shifts into `previous`, and the new value becomes
    /// `current`.
    pub open spec fn spec_update(self, value: T) -> Watcher<T> {
        Watcher {
            zero: self.zero,
            pair: Some(
                Observation {
                    previous: match self.pair {
                        Some(p) => p.current,
                        None => self.zero,
                    },
                    current: value,
                },
            ),
        }
    }

    /// Record this tick's value, shifting the prior tick's value into
    /// `previous`.
    pub fn update(&mut self, value: T)
        ensures
            *final(self) == old(self).spec_update(value),
    {
        let previous = match &self.pair {
            Some(p) => p.current,
            None => self.zero,
        };
        self.pair = Some(Observation { previous, current: value });
    }

    /// What one last-known-good shift does: the update performed when this
    /// tick's read failed upstream — the stored current value (the zero
    /// value before the first tick) is re-observed, so the pair still
    /// shifts and no stale edge survives the failed tick.
    pub open spec fn spec_refresh(self) -> Watcher<T> {
        self.spec_update(self.spec_obs().current)
    }

    /// Record a failed read: shifts the pair with the last-known-good
    /// value, as every consumer of an unreadable quantity must, so the
    /// watcher itself never fails and no edge outlives its tick.
    pub fn refresh_last_known(&mut self)
        ensures
            *final(self) == old(self).spec_refresh(),
    {
        let value = match &self.pair {
            Some(p) => p.current,
            None => self.zero,
        };
        self.update(value);
    }

    /// The observation consumers see: the pair if a tick has run, the zero
    /// value for both slots otherwise.
    pub open spec fn spec_obs(self) -> Observation<T> {
        match self.pair {
            Some(p) => p,
            None => Observation { previous: self.zero, current: self.zero },
        }
    }

    /// The observation pair, substituting the zero value while nothing has
    /// been observed yet.
    pub fn obs(&self) -> (r: Observation<T>)
        ensures
            r == self.spec_obs(),
    {
        match &self.pair {
            Some(p) => Observation { previous: p.previous, current: p.current },
            None => Observation { previous: self.zero, current: self.zero },
        }
    }
}

/// The full set of watchers the driver refreshes each tick, one per tracked
/// game quantity. Times are held in whole centiseconds; the loading-screen
/// progress is held as the raw bit pattern of the game's 32-bit encoding.
pub struct Watchers {
    pub is_loading: Watcher<bool>,
    pub load_ui_progress_bits: Watcher<u32>,
    pub level_id: Watcher<Stages>,
    pub checkpoint: Watcher<i32>,
    pub time_trial_igt: Watcher<i64>,
    pub time_trial_state: Watcher<TimeTrialState>,
    pub time_trial_bonus_time: Watcher<u64>,
    pub spooky_qte_success: Watcher<bool>,
    pub boss_state: Watcher<u32>,
    pub player_state: Watcher<PlayerState>,
    pub stage_state: Watcher<StageState>,
}

impl Watchers {
    /// Whether every watcher still awaits its first tick and carries its
    /// documented zero value.
    pub open spec fn spec_initial(self) -> bool {
        &&& self.is_loading == (Watcher { zero: false, pair: None::<Observation<bool>> })
        &&& self.load_ui_progress_bits == (Watcher { zero: 0u32, pair: None::<Observation<u32>> })
        &&& self.level_id == (Watcher { zero: Stages::Unknown, pair: None::<Observation<Stages>> })
        &&& self.checkpoint == (Watcher { zero: 0i32, pair: None::<Observation<i32>> })
        &&& self.time_trial_igt == (Watcher { zero: 0i64, pair: None::<Observation<i64>> })
        &&& self.time_trial_state == (Watcher {
            zero: TimeTrialState::Unknown,
            pair: None::<Observation<TimeTrialState>>,
        })
        &&& self.time_trial_bonus_time == (Watcher { zero: 0u64, pair: None::<Observation<u64>> })
        &&& self.spooky_qte_success == (Watcher { zero: false, pair: None::<Observation<bool>> })
        &&& self.boss_state == (Watcher { zero: 0u32, pair: None::<Observation<u32>> })
        &&& self.player_state == (Watcher {
            zero: PlayerState::NoneState,
            pair: None::<Observation<PlayerState>>,
        })
        &&& self.stage_state == (Watcher {
            zero: StageState::NoneState,
            pair: None::<Observation<StageState>>,
        })
    }

    /// The watcher set as it stands when a process attachment begins: nothing
    /// observed, every quantity at its zero value.
    pub fn new() -> (r: Watchers)
        ensures
            r.spec_initial(),
    {
        Watchers {
            is_loading: Watcher::new(false),
            load_ui_progress_bits: Watcher::new(0),
            level_id: Watcher::new(Stages::Unknown),
            checkpoint: Watcher::new(0),
            time_trial_igt: Watcher::new(0),
            time_trial_state: Watcher::new(TimeTrialState::Unknown),
            time_trial_bonus_time: Watcher::new(0),
            spooky_qte_success: Watcher::new(false),
            boss_state: Watcher::new(0),
            player_state: Watcher::new(PlayerState::NoneState),
            stage_state: Watcher::new(StageState::NoneState),
        }
    }
}

} // verus!
