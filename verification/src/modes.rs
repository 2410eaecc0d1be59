//! The per-mode timing state machines.
//!
//! Each mode is a pure function of the current configuration, the current
//! tick's observations and the previous accumulator state; it returns the
//! new accumulator state (through `&mut`) and the tick's timer commands.
//! The shared sub-protocols — loading gate, checkpoint-skip catch-up,
//! monotonic phase split and end-of-run flush — live here beside the four
//! mode tick functions.
use vstd::prelude::*;

use crate::Observation;
use crate::commands::Diag;
use crate::commands::TimerCommand;
use crate::commands::flush_cmds;
use crate::commands::skip_seq;
use crate::commands::end_of_run_flush;
use crate::commands::push_skips;
use crate::observation::Watchers;
use crate::settings::Settings;
use crate::states::HostTimerState;
use crate::states::PlayerState;
use crate::states::StageState;
use crate::states::Stages;
use crate::states::TimeTrialState;
use crate::timeops::sat_i64;
use crate::timeops::sat_add_i64;
use crate::timeops::sat_sub_i64;
use crate::timeops::spec_bonus_centis;
use crate::timeops::bonus_centis;
use crate::timeops::spec_centis_to_nanos;
use crate::timeops::centis_to_nanos;

verus! {

/// The boss phase value at which the final boss counts as defeated.
pub const TOCMAN_DEFEAT_STATE: u32 = 4;

/// The raw 32-bit encoding of a loading progress of exactly one. The
/// progress is compared as its raw bit pattern: for the game's non-negative
/// finite encodings, bit patterns strictly between zero and this value are
/// exactly the progress values strictly between zero and one, and every
/// negative or non-finite encoding falls outside the range, which is what
/// the loading check wants.
pub const PROGRESS_ONE_BITS: u32 = 0x3F80_0000;

/// Game time added right after a full-game start, compensating for the
/// unobservable animation between difficulty select and the first load.
pub const FULL_GAME_START_OFFSET_NANOS: i64 = 3_433_333_333;

/// Cross-tick accumulator state owned by the active mode's state machine.
/// It lives for one process attachment and resets to its zero value when
/// the attachment ends or a mode-level reset fires.
#[derive(Clone, Copy, PartialEq, Eq, Structural, Debug)]
pub struct RunState {
    /// Latch arming the next individual-level start transition.
    pub enable_il_restart: bool,
    /// Latch arming the next full-game level-exit split.
    pub enable_level_split: bool,
    /// Adjusted time, in centiseconds, at which the previous time-trial
    /// split was recorded.
    pub last_time_trial_split_time: i64,
    /// High-water mark of boss phases already awarded a split.
    pub highest_boss_phase_split: u32,
    /// Marathon carry-over: adjusted time, in centiseconds, folded in from
    /// finished trials.
    pub time_trial_marathon_timer_acum: i64,
    /// Latch suppressing live marathon time while a manual mid-trial
    /// restart is under way.
    pub restarting_level: bool,
}

impl RunState {
    /// The zero state every accumulator starts from.
    pub open spec fn spec_initial() -> RunState {
        RunState {
            enable_il_restart: false,
            enable_level_split: false,
            last_time_trial_split_time: 0,
            highest_boss_phase_split: 0,
            time_trial_marathon_timer_acum: 0,
            restarting_level: false,
        }
    }

    /// The accumulator state as it stands when a process attachment begins.
    pub fn new() -> (r: RunState)
        ensures
            r == RunState::spec_initial(),
    {
        RunState {
            enable_il_restart: false,
            enable_level_split: false,
            last_time_trial_split_time: 0,
            highest_boss_phase_split: 0,
            time_trial_marathon_timer_acum: 0,
            restarting_level: false,
        }
    }
}

/// Whether the loading gate holds elapsed time paused this tick: the
/// loading flag is set, or the loading-screen animation progress lies
/// strictly between zero and one.
pub open spec fn loading_gate_active(w: Watchers) -> bool {
    let loading = w.is_loading.spec_obs().current;
    let bits = w.load_ui_progress_bits.spec_obs().current;
    loading || (0 < bits && bits < PROGRESS_ONE_BITS)
}

/// The command the loading gate emits every tick: pause elapsed time while
/// a load is under way, resume it otherwise.
pub open spec fn loading_gate_cmd(w: Watchers) -> TimerCommand {
    if loading_gate_active(w) {
        TimerCommand::PauseGameTime
    } else {
        TimerCommand::ResumeGameTime
    }
}

/// Runs the loading gate: pauses elapsed time whenever a load is under way
/// (covering the animation phase the boolean alone misses), resumes it
/// otherwise.
pub fn loading_gate(w: &Watchers, cmds: &mut Vec<TimerCommand>)
    ensures
        final(cmds)@ == old(cmds)@.push(loading_gate_cmd(*w)),
{
    let loading = w.is_loading.obs();
    let progress = w.load_ui_progress_bits.obs();
    if loading.current || (0 < progress.current && progress.current < PROGRESS_ONE_BITS) {
        cmds.push(TimerCommand::PauseGameTime);
    } else {
        cmds.push(TimerCommand::ResumeGameTime);
    }
}

/// Whether the full-game start transition fired: the level identifier moved
/// from the title screen to the intro movie, and the start option is on.
pub open spec fn fg_start_condition(w: Watchers, s: Settings) -> bool {
    match w.level_id.pair {
        Some(p) => p.previous == Stages::Title && p.current == Stages::Movie && s.start_new_game,
        None => false,
    }
}

/// Detects the one full-game start transition: title screen to intro movie,
/// gated by configuration. An unobserved level identifier never starts.
pub fn start(w: &Watchers, s: &Settings) -> (r: bool)
    ensures
        r == fg_start_condition(*w, *s),
{
    let level = match &w.level_id.pair {
        Some(p) => Observation { previous: p.previous, current: p.current },
        None => {
            return false;
        },
    };
    if level.current == level.previous {
        return false;
    }
    level.current == Stages::Movie && level.previous == Stages::Title && s.start_new_game
}

/// Whether this tick arms the full-game level-exit split latch: the player
/// reached a goal state, or the stage select was entered straight from the
/// hub village.
pub open spec fn fg_level_split_arm(w: Watchers) -> bool {
    let ps = w.player_state.spec_obs();
    let lv = w.level_id.spec_obs();
    (ps.current == PlayerState::Goal && ps.current != ps.previous) || ((lv.current
        == Stages::StageSelect || lv.current == Stages::StageSelectPast) && lv.previous
        == Stages::PacVillage)
}

/// Arms the full-game level-exit split latch: the player's state moved into
/// a goal state, or a stage select was reached directly from the hub
/// village.
pub fn enable_full_game_level_splits(w: &Watchers) -> (r: bool)
    ensures
        r == fg_level_split_arm(*w),
{
    let ps = w.player_state.obs();
    let lv = w.level_id.obs();
    (ps.current == PlayerState::Goal && ps.current != ps.previous) || ((lv.current
        == Stages::StageSelect || lv.current == Stages::StageSelectPast) && lv.previous
        == Stages::PacVillage)
}

/// Whether the full-game split fires this tick. A level-identifier change
/// consumes the armed latch for the two stage-select exits; otherwise the
/// quick-time-event success and the final-boss defeat are independent
/// one-shot transitions.
pub open spec fn fg_split_condition(w: Watchers, s: Settings, level_split_enabled: bool) -> bool {
    let lv = w.level_id.spec_obs();
    let spooky = w.spooky_qte_success.spec_obs();
    let boss = w.boss_state.spec_obs();
    if lv.spec_changed() && level_split_enabled {
        if lv.current == Stages::StageSelect {
            s.split_on_level_complete
        } else if lv.current == Stages::StageSelectPast {
            s.split_on_past_level_complete
        } else {
            false
        }
    } else {
        (spooky.spec_changed() && spooky.current && s.split_spooky_qte) || (boss.spec_changed()
            && boss.current == TOCMAN_DEFEAT_STATE && lv.current == Stages::Stage6_5
            && s.split_tocman)
    }
}

/// Detects a full-game split: a level exit to a stage select while the
/// level-split latch is armed, the quick-time-event success, or the
/// final-boss defeat.
pub fn split_full_game(w: &Watchers, s: &Settings, level_split_enabled: bool) -> (r: bool)
    ensures
        r == fg_split_condition(*w, *s, level_split_enabled),
{
    let lv = w.level_id.obs();
    if lv.current != lv.previous && level_split_enabled {
        return if lv.current == Stages::StageSelect {
            s.split_on_level_complete
        } else if lv.current == Stages::StageSelectPast {
            s.split_on_past_level_complete
        } else {
            false
        };
    }
    let spooky = w.spooky_qte_success.obs();
    if spooky.changed() && spooky.current && s.split_spooky_qte {
        return true;
    }
    let boss = w.boss_state.obs();
    boss.changed() && boss.current == TOCMAN_DEFEAT_STATE && lv.current == Stages::Stage6_5
        && s.split_tocman
}

/// Whether the checkpoint sub-protocol fires: checkpoint splits are on and
/// the counter changed without decreasing. A decrease (a level restart) is
/// never a split trigger.
pub open spec fn checkpoint_triggers(cp: Observation<i32>, s: Settings) -> bool {
    s.split_checkpoint && cp.spec_changed() && !(cp.current < cp.previous)
}

/// How many checkpoints the jump skipped: the split slots between the lower
/// bound (the previous counter, with the "not started" sentinel of -1
/// treated as zero) and the one before the new counter.
pub open spec fn checkpoint_skips(cp: Observation<i32>) -> int {
    let lower: int = if cp.previous == -1 {
        0
    } else {
        cp.previous as int
    };
    if cp.current - 1 > lower {
        cp.current - 1 - lower
    } else {
        0
    }
}

/// The checkpoint-skip catch-up: when the counter jumps upward over more
/// than one unit, reports how many skip-splits must be emitted before the
/// real split so per-checkpoint split slots stay aligned. `None` when no
/// checkpoint split fires this tick.
pub fn split_checkpoints(cp: &Observation<i32>, s: &Settings) -> (r: Option<u64>)
    ensures
        checkpoint_triggers(*cp, *s) ==> r == Some(checkpoint_skips(*cp) as u64),
        !checkpoint_triggers(*cp, *s) ==> r is None,
{
    if !s.split_checkpoint || !cp.changed() || cp.decreased() {
        return None;
    }
    let lower: i64 = if cp.previous == -1 {
        0
    } else {
        cp.previous as i64
    };
    let goal: i64 = cp.current as i64;
    let skips: i64 = if goal - 1 > lower {
        goal - 1 - lower
    } else {
        0
    };
    Some(skips as u64)
}

/// Whether the monotonic phase split fires: phase splits are on, the phase
/// rose by exactly one, is above its lowest meaningful value, and tops the
/// high-water mark of phases already awarded a split, so a phase that
/// oscillates down and back up is never re-awarded.
pub open spec fn boss_phase_triggers(bp: Observation<u32>, s: Settings, highest: u32) -> bool {
    &&& s.split_boss_phase
    &&& bp.spec_changed()
    &&& !(bp.current < bp.previous)
    &&& bp.current > 1
    &&& bp.current == bp.previous + 1
    &&& highest < bp.current
}

/// The monotonic phase split: fires only on a one-step increase past the
/// high-water mark, and raises the mark so later oscillations cannot
/// re-award the split.
pub fn split_boss_phase(bp: &Observation<u32>, s: &Settings, highest_phase: &mut u32) -> (r: bool)
    ensures
        r == boss_phase_triggers(*bp, *s, *old(highest_phase)),
        *final(highest_phase) == if r {
            bp.current
        } else {
            *old(highest_phase)
        },
{
    if !s.split_boss_phase || !bp.changed() || bp.decreased() {
        return false;
    }
    if bp.current > 1 && bp.current == bp.previous + 1 && *highest_phase < bp.current {
        *highest_phase = bp.current;
        return true;
    }
    false
}

/// The full-game level-split latch after this tick's arming step: it stays
/// armed, or arms on this tick's qualifying transition.
pub open spec fn fg_enable_mid(w: Watchers, st: RunState) -> bool {
    st.enable_level_split || fg_level_split_arm(w)
}

/// Whether the full-game split fires this tick, against the latch as armed
/// this tick.
pub open spec fn fg_split_fires(w: Watchers, s: Settings, st: RunState) -> bool {
    fg_split_condition(w, s, fg_enable_mid(w, st))
}

/// The commands the full-game start transition emits: an optional reset,
/// the start, and the synthetic pre-load animation offset.
pub open spec fn fg_start_cmds(w: Watchers, s: Settings) -> Seq<TimerCommand> {
    if fg_start_condition(w, s) {
        (if s.reset_on_file_creation {
            seq![TimerCommand::Reset]
        } else {
            Seq::<TimerCommand>::empty()
        }) + seq![
            TimerCommand::Start,
            TimerCommand::SetGameTime(FULL_GAME_START_OFFSET_NANOS),
        ]
    } else {
        Seq::<TimerCommand>::empty()
    }
}

/// Everything one full-game tick emits: the loading gate, then the start
/// transition, then the split.
pub open spec fn fg_tick_cmds(w: Watchers, s: Settings, st: RunState) -> Seq<TimerCommand> {
    seq![loading_gate_cmd(w)] + fg_start_cmds(w, s) + (if fg_split_fires(w, s, st) {
        seq![TimerCommand::Split]
    } else {
        Seq::<TimerCommand>::empty()
    })
}

/// One tick of the full-game state machine: runs the loading gate, starts
/// (with the optional reset and the synthetic pre-load offset) on the one
/// title-to-movie transition, arms the level-split latch, and emits the
/// split that consumes it.
pub fn full_game_tick(w: &Watchers, s: &Settings, state: &mut RunState) -> (cmds: Vec<
    TimerCommand,
>)
    ensures
        cmds@ == fg_tick_cmds(*w, *s, *old(state)),
        final(state).enable_level_split == (fg_enable_mid(*w, *old(state)) && !fg_split_fires(
            *w,
            *s,
            *old(state),
        )),
        final(state).enable_il_restart == old(state).enable_il_restart,
        final(state).last_time_trial_split_time == old(state).last_time_trial_split_time,
        final(state).highest_boss_phase_split == old(state).highest_boss_phase_split,
        final(state).time_trial_marathon_timer_acum == old(
            state,
        ).time_trial_marathon_timer_acum,
        final(state).restarting_level == old(state).restarting_level,
{
    let mut cmds: Vec<TimerCommand> = Vec::new();
    loading_gate(w, &mut cmds);
    if start(w, s) {
        if s.reset_on_file_creation {
            cmds.push(TimerCommand::Reset);
        }
        cmds.push(TimerCommand::Start);
        cmds.push(TimerCommand::SetGameTime(FULL_GAME_START_OFFSET_NANOS));
    }
    if !state.enable_level_split {
        state.enable_level_split = enable_full_game_level_splits(w);
    }
    if split_full_game(w, s, state.enable_level_split) {
        cmds.push(TimerCommand::Split);
        state.enable_level_split = false;
    }
    assert(cmds@ =~= fg_tick_cmds(*w, *s, *old(state)));
    cmds
}

/// Whether this tick arms the individual-level restart latch: a menu
/// restart while the player is not dead and no checkpoint is held, the
/// checkpoint counter returning to its sentinel while the stage reports the
/// player dead, or the stage-init-to-control transition.
pub open spec fn il_arm_condition(w: Watchers) -> bool {
    let ss = w.stage_state.spec_obs();
    let cp = w.checkpoint.spec_obs();
    let ps = w.player_state.spec_obs();
    ||| (ss.previous == StageState::Pause && ss.current == StageState::PacDead && ps.current
        != PlayerState::Dead && cp.current == -1)
    ||| (cp.spec_changed() && cp.current == -1 && ss.current == StageState::PacDead)
    ||| (ps.previous == PlayerState::StageInit && (ps.current == PlayerState::Control
        || ps.current == PlayerState::Shooting))
}

/// Whether the player's state moved into a control or shooting state this
/// tick: the transition that consumes the armed restart latch.
pub open spec fn il_control_edge(w: Watchers) -> bool {
    let ps = w.player_state.spec_obs();
    (ps.previous != PlayerState::Control && ps.current == PlayerState::Control) || (ps.previous
        != PlayerState::Shooting && ps.current == PlayerState::Shooting)
}

/// The individual-level restart latch after this tick's arming step.
pub open spec fn il_armed_mid(w: Watchers, st: RunState) -> bool {
    st.enable_il_restart || il_arm_condition(w)
}

/// Whether the individual-level start fires this tick: a control edge
/// consumes the armed latch, gated by configuration.
pub open spec fn il_start_fires(w: Watchers, s: Settings, st: RunState) -> bool {
    il_control_edge(w) && il_armed_mid(w, st) && s.start_il
}

/// Whether the individual-level goal flush fires: the player's state moved
/// into the goal state, gated by configuration.
pub open spec fn il_goal_fires(w: Watchers, s: Settings) -> bool {
    let ps = w.player_state.spec_obs();
    ps.current != ps.previous && ps.current == PlayerState::Goal && s.split_il
}

/// The phase high-water mark after a start this tick zeroed it.
pub open spec fn il_highest_mid(w: Watchers, s: Settings, st: RunState) -> u32 {
    if il_start_fires(w, s, st) {
        0u32
    } else {
        st.highest_boss_phase_split
    }
}

/// Whether the checkpoint split fires this tick.
pub open spec fn il_cp_fires(w: Watchers, s: Settings) -> bool {
    checkpoint_triggers(w.checkpoint.spec_obs(), s)
}

/// Whether the phase split fires this tick: only consulted when no
/// checkpoint split fired.
pub open spec fn il_boss_fires(w: Watchers, s: Settings, st: RunState) -> bool {
    !il_cp_fires(w, s) && boss_phase_triggers(
        w.boss_state.spec_obs(),
        s,
        il_highest_mid(w, s, st),
    )
}

/// The commands the individual-level start emits: reset, start, resume, and
/// elapsed time zeroed.
pub open spec fn il_start_cmds(w: Watchers, s: Settings, st: RunState) -> Seq<TimerCommand> {
    if il_start_fires(w, s, st) {
        seq![
            TimerCommand::Reset,
            TimerCommand::Start,
            TimerCommand::ResumeGameTime,
            TimerCommand::SetGameTime(0i64),
        ]
    } else {
        Seq::<TimerCommand>::empty()
    }
}

/// The checkpoint-or-phase split commands of one individual-level tick: the
/// checkpoint catch-up and its split, or the phase split.
pub open spec fn il_split_cmds(w: Watchers, s: Settings, st: RunState) -> Seq<TimerCommand> {
    if il_cp_fires(w, s) {
        skip_seq(checkpoint_skips(w.checkpoint.spec_obs())) + seq![TimerCommand::Split]
    } else if il_boss_fires(w, s, st) {
        seq![TimerCommand::Split]
    } else {
        Seq::<TimerCommand>::empty()
    }
}

/// Everything one individual-level tick emits.
pub open spec fn il_tick_cmds(w: Watchers, s: Settings, st: RunState) -> Seq<TimerCommand> {
    seq![loading_gate_cmd(w)] + il_start_cmds(w, s, st) + (if il_goal_fires(w, s) {
        flush_cmds()
    } else {
        Seq::<TimerCommand>::empty()
    }) + il_split_cmds(w, s, st)
}

/// One tick of the individual-level state machine: runs the loading gate,
/// arms the restart latch on any of its three transition patterns, consumes
/// it (exactly once) on the next control edge — resetting and restarting
/// elapsed time — flushes the run on reaching the goal, and emits the
/// checkpoint or phase split.
pub fn il_tick(w: &Watchers, s: &Settings, state: &mut RunState) -> (cmds: Vec<TimerCommand>)
    ensures
        cmds@ == il_tick_cmds(*w, *s, *old(state)),
        final(state).enable_il_restart == (il_armed_mid(*w, *old(state)) && !il_start_fires(
            *w,
            *s,
            *old(state),
        )),
        final(state).highest_boss_phase_split == (if il_boss_fires(*w, *s, *old(state)) {
            w.boss_state.spec_obs().current
        } else {
            il_highest_mid(*w, *s, *old(state))
        }),
        final(state).enable_level_split == old(state).enable_level_split,
        final(state).last_time_trial_split_time == old(state).last_time_trial_split_time,
        final(state).time_trial_marathon_timer_acum == old(
            state,
        ).time_trial_marathon_timer_acum,
        final(state).restarting_level == old(state).restarting_level,
{
    let mut cmds: Vec<TimerCommand> = Vec::new();
    loading_gate(w, &mut cmds);
    let ss = w.stage_state.obs();
    let cp = w.checkpoint.obs();
    let bp = w.boss_state.obs();
    let ps = w.player_state.obs();
    if (ss.previous == StageState::Pause && ss.current == StageState::PacDead && ps.current
        != PlayerState::Dead && cp.current == -1) || (cp.changed() && cp.current == -1
        && ss.current == StageState::PacDead) || (ps.previous == PlayerState::StageInit
        && (ps.current == PlayerState::Control || ps.current == PlayerState::Shooting)) {
        state.enable_il_restart = true;
    }
    if ((ps.previous != PlayerState::Control && ps.current == PlayerState::Control)
        || (ps.previous != PlayerState::Shooting && ps.current == PlayerState::Shooting))
        && state.enable_il_restart && s.start_il {
        cmds.push(TimerCommand::Reset);
        cmds.push(TimerCommand::Start);
        cmds.push(TimerCommand::ResumeGameTime);
        cmds.push(TimerCommand::SetGameTime(0));
        state.enable_il_restart = false;
        state.highest_boss_phase_split = 0;
    }
    if ps.current != ps.previous && ps.current == PlayerState::Goal && s.split_il {
        end_of_run_flush(&mut cmds);
    }
    match split_checkpoints(&cp, s) {
        Some(k) => {
            proof {
                assert(checkpoint_skips(cp) <= u32::MAX as int);
            }
            push_skips(&mut cmds, k as usize);
            cmds.push(TimerCommand::Split);
        },
        None => {
            if split_boss_phase(&bp, s, &mut state.highest_boss_phase_split) {
                cmds.push(TimerCommand::Split);
            }
        },
    }
    assert(cmds@ =~= il_tick_cmds(*w, *s, *old(state)));
    cmds
}

/// The current trial's adjusted time in centiseconds: the in-game time
/// minus the accumulated bonus time.
pub open spec fn trial_adjusted_centis(w: Watchers) -> i64 {
    sat_i64(
        w.time_trial_igt.spec_obs().current - spec_bonus_centis(
            w.time_trial_bonus_time.spec_obs().current,
        ),
    )
}

/// Whether the trial start fires: the trial state moved from inactive to
/// active.
pub open spec fn tt_start_fires(w: Watchers) -> bool {
    let tt = w.time_trial_state.spec_obs();
    tt.previous == TimeTrialState::NoneState && tt.current == TimeTrialState::TA
}

/// Whether the trial end fires: the trial state moved into its ended state.
pub open spec fn tt_end_fires(w: Watchers) -> bool {
    let tt = w.time_trial_state.spec_obs();
    tt.previous != TimeTrialState::End && tt.current == TimeTrialState::End
}

/// The previous-split time after a start this tick zeroed it.
pub open spec fn tt_last_mid(w: Watchers, st: RunState) -> i64 {
    if tt_start_fires(w) {
        0i64
    } else {
        st.last_time_trial_split_time
    }
}

/// The phase high-water mark after a start this tick zeroed it.
pub open spec fn tt_highest_mid(w: Watchers, st: RunState) -> u32 {
    if tt_start_fires(w) {
        0u32
    } else {
        st.highest_boss_phase_split
    }
}

/// Whether the negative-delta suppression replaces this tick's checkpoint
/// split with a skip: suppression and bonus discounting are both on, and
/// the candidate's adjusted time lies below the previous split's.
pub open spec fn tt_suppress(w: Watchers, s: Settings, st: RunState) -> bool {
    s.time_trial_skip_negative && s.time_trial_discount_bonus && tt_last_mid(w, st)
        > trial_adjusted_centis(w)
}

/// Whether the checkpoint split fires this tick.
pub open spec fn tt_cp_fires(w: Watchers, s: Settings) -> bool {
    checkpoint_triggers(w.checkpoint.spec_obs(), s)
}

/// Whether the phase split fires this tick.
pub open spec fn tt_boss_fires(w: Watchers, s: Settings, st: RunState) -> bool {
    boss_phase_triggers(w.boss_state.spec_obs(), s, tt_highest_mid(w, st))
}

/// Whether the trial reset fires: the trial state fell back to inactive
/// while the in-game timer still moves, or the level identifier moved into
/// a stage select.
pub open spec fn tt_reset_fires(w: Watchers) -> bool {
    let tt = w.time_trial_state.spec_obs();
    let igt = w.time_trial_igt.spec_obs();
    let lv = w.level_id.spec_obs();
    (tt.current == TimeTrialState::NoneState && igt.current != igt.previous) || (lv.spec_changed()
        && (lv.current == Stages::StageSelect || lv.current == Stages::StageSelectPast))
}

/// The elapsed time, in nanoseconds, a time-trial tick overwrites the host
/// timer with: the adjusted time when bonus discounting is on, the raw
/// in-game time otherwise.
pub open spec fn tt_display_nanos(w: Watchers, s: Settings) -> i64 {
    if s.time_trial_discount_bonus {
        spec_centis_to_nanos(trial_adjusted_centis(w))
    } else {
        spec_centis_to_nanos(w.time_trial_igt.spec_obs().current)
    }
}

/// The checkpoint split commands of one time-trial tick: the catch-up
/// skips, then a split — or a skip when the negative-delta suppression
/// holds.
pub open spec fn tt_cp_cmds(w: Watchers, s: Settings, st: RunState) -> Seq<TimerCommand> {
    if tt_cp_fires(w, s) {
        skip_seq(checkpoint_skips(w.checkpoint.spec_obs())) + seq![
            if tt_suppress(w, s, st) {
                TimerCommand::SkipSplit
            } else {
                TimerCommand::Split
            },
        ]
    } else {
        Seq::<TimerCommand>::empty()
    }
}

/// Everything one time-trial tick emits.
pub open spec fn tt_tick_cmds(w: Watchers, s: Settings, st: RunState) -> Seq<TimerCommand> {
    seq![TimerCommand::PauseGameTime, TimerCommand::SetGameTime(tt_display_nanos(w, s))] + (
    if tt_start_fires(w) {
        seq![TimerCommand::Start]
    } else {
        Seq::<TimerCommand>::empty()
    }) + (if tt_end_fires(w) {
        flush_cmds()
    } else {
        Seq::<TimerCommand>::empty()
    }) + tt_cp_cmds(w, s, st) + (if tt_boss_fires(w, s, st) {
        seq![TimerCommand::Split]
    } else {
        Seq::<TimerCommand>::empty()
    }) + (if tt_reset_fires(w) {
        seq![TimerCommand::Reset]
    } else {
        Seq::<TimerCommand>::empty()
    })
}

/// One tick of the time-trial state machine: elapsed time is not driven by
/// the loading gate but continuously overwritten from the in-game timer
/// (optionally minus accumulated bonus time); the trial-state edges start
/// and flush the run, checkpoint splits apply the catch-up and the
/// negative-delta suppression, and a trial abort or stage-select exit
/// resets the timer.
#[verifier::rlimit(100)]
pub fn time_trial_tick(w: &Watchers, s: &Settings, state: &mut RunState) -> (cmds: Vec<
    TimerCommand,
>)
    ensures
        cmds@ == tt_tick_cmds(*w, *s, *old(state)),
        final(state).last_time_trial_split_time == (if tt_cp_fires(*w, *s) && !tt_suppress(
            *w,
            *s,
            *old(state),
        ) {
            trial_adjusted_centis(*w)
        } else {
            tt_last_mid(*w, *old(state))
        }),
        final(state).highest_boss_phase_split == (if tt_boss_fires(*w, *s, *old(state)) {
            w.boss_state.spec_obs().current
        } else {
            tt_highest_mid(*w, *old(state))
        }),
        final(state).enable_il_restart == old(state).enable_il_restart,
        final(state).enable_level_split == old(state).enable_level_split,
        final(state).time_trial_marathon_timer_acum == old(
            state,
        ).time_trial_marathon_timer_acum,
        final(state).restarting_level == old(state).restarting_level,
{
    let mut cmds: Vec<TimerCommand> = Vec::new();
    cmds.push(TimerCommand::PauseGameTime);
    let cp = w.checkpoint.obs();
    let bp = w.boss_state.obs();
    let lv = w.level_id.obs();
    let tt = w.time_trial_state.obs();
    let igt = w.time_trial_igt.obs();
    let bonus = w.time_trial_bonus_time.obs();
    let igt_with_bonus = sat_sub_i64(igt.current, bonus_centis(bonus.current));
    if s.time_trial_discount_bonus {
        cmds.push(TimerCommand::SetGameTime(centis_to_nanos(igt_with_bonus)));
    } else {
        cmds.push(TimerCommand::SetGameTime(centis_to_nanos(igt.current)));
    }
    let ghost head = seq![
        TimerCommand::PauseGameTime,
        TimerCommand::SetGameTime(tt_display_nanos(*w, *s)),
    ];
    assert(cmds@ =~= head);
    if tt.previous == TimeTrialState::NoneState && tt.current == TimeTrialState::TA {
        cmds.push(TimerCommand::Start);
        state.last_time_trial_split_time = 0;
        state.highest_boss_phase_split = 0;
    }
    let ghost c_start = head + (if tt_start_fires(*w) {
        seq![TimerCommand::Start]
    } else {
        Seq::<TimerCommand>::empty()
    });
    assert(cmds@ =~= c_start);
    if tt.previous != TimeTrialState::End && tt.current == TimeTrialState::End {
        end_of_run_flush(&mut cmds);
    }
    let ghost c_end = c_start + (if tt_end_fires(*w) {
        flush_cmds()
    } else {
        Seq::<TimerCommand>::empty()
    });
    assert(cmds@ =~= c_end);
    match split_checkpoints(&cp, s) {
        Some(k) => {
            proof {
                assert(checkpoint_skips(cp) <= u32::MAX as int);
            }
            push_skips(&mut cmds, k as usize);
            if s.time_trial_skip_negative && s.time_trial_discount_bonus
                && state.last_time_trial_split_time > igt_with_bonus {
                cmds.push(TimerCommand::SkipSplit);
            } else {
                cmds.push(TimerCommand::Split);
                state.last_time_trial_split_time = igt_with_bonus;
            }
        },
        None => {},
    }
    let ghost c_cp = c_end + tt_cp_cmds(*w, *s, *old(state));
    assert(cmds@ =~= c_cp);
    if split_boss_phase(&bp, s, &mut state.highest_boss_phase_split) {
        cmds.push(TimerCommand::Split);
    }
    let ghost c_boss = c_cp + (if tt_boss_fires(*w, *s, *old(state)) {
        seq![TimerCommand::Split]
    } else {
        Seq::<TimerCommand>::empty()
    });
    assert(cmds@ =~= c_boss);
    if (tt.current == TimeTrialState::NoneState && igt.current != igt.previous) || (lv.current
        != lv.previous && (lv.current == Stages::StageSelect || lv.current
        == Stages::StageSelectPast)) {
        cmds.push(TimerCommand::Reset);
    }
    assert(cmds@ =~= tt_tick_cmds(*w, *s, *old(state)));
    cmds
}

/// Whether the marathon start fires: the trial state moved into active
/// while the player is in control and the host timer is not yet running.
pub open spec fn mt_start_fires(w: Watchers, timer_state: HostTimerState) -> bool {
    let tt = w.time_trial_state.spec_obs();
    let ps = w.player_state.spec_obs();
    tt.spec_changed() && tt.current == TimeTrialState::TA && ps.current == PlayerState::Control
        && timer_state == HostTimerState::NotRunning
}

/// The marathon accumulator after a start this tick zeroed it.
pub open spec fn mt_acum_started(w: Watchers, timer_state: HostTimerState, st: RunState) -> i64 {
    if mt_start_fires(w, timer_state) {
        0i64
    } else {
        st.time_trial_marathon_timer_acum
    }
}

/// The restarting latch after this tick's clearing step: regaining control
/// ends a manual restart.
pub open spec fn mt_restarting_cleared(w: Watchers, st: RunState) -> bool {
    if st.restarting_level && w.player_state.spec_obs().current == PlayerState::Control {
        false
    } else {
        st.restarting_level
    }
}

/// Whether a trial ended this tick: the transition that folds the trial's
/// adjusted time into the accumulator and emits its split.
pub open spec fn mt_end_fires(w: Watchers) -> bool {
    let tt = w.time_trial_state.spec_obs();
    tt.spec_changed() && tt.current == TimeTrialState::End
}

/// The accumulator after this tick's trial-end fold.
pub open spec fn mt_acum_after_end(w: Watchers, timer_state: HostTimerState, st: RunState) -> i64 {
    if mt_end_fires(w) {
        sat_i64(mt_acum_started(w, timer_state, st) + trial_adjusted_centis(w))
    } else {
        mt_acum_started(w, timer_state, st)
    }
}

/// Whether a manual mid-trial restart was detected: a pause-to-dead stage
/// transition.
pub open spec fn mt_manual_restart(w: Watchers) -> bool {
    let ss = w.stage_state.spec_obs();
    (ss.previous == StageState::Pause || ss.previous == StageState::DebugPause) && ss.current
        == StageState::PacDead
}

/// The accumulator after this tick's folds: a manual restart folds in the
/// pre-restart raw in-game time (without bonus clocks).
pub open spec fn mt_acum_final(w: Watchers, timer_state: HostTimerState, st: RunState) -> i64 {
    if mt_manual_restart(w) {
        sat_i64(mt_acum_after_end(w, timer_state, st) + w.time_trial_igt.spec_obs().previous)
    } else {
        mt_acum_after_end(w, timer_state, st)
    }
}

/// The restarting latch after this tick.
pub open spec fn mt_restarting_final(w: Watchers, st: RunState) -> bool {
    if mt_manual_restart(w) {
        true
    } else {
        mt_restarting_cleared(w, st)
    }
}

/// The elapsed time, in centiseconds, a marathon tick displays: the
/// accumulator plus the live trial's adjusted time while a trial runs and
/// no restart is under way, the accumulator alone otherwise.
pub open spec fn mt_display_centis(w: Watchers, timer_state: HostTimerState, st: RunState) -> i64 {
    let tt = w.time_trial_state.spec_obs();
    if (tt.current == TimeTrialState::TA || tt.current == TimeTrialState::Pause)
        && !mt_restarting_final(w, st) {
        sat_i64(mt_acum_final(w, timer_state, st) + trial_adjusted_centis(w))
    } else {
        mt_acum_final(w, timer_state, st)
    }
}

/// Everything one marathon tick emits.
pub open spec fn mt_tick_cmds(w: Watchers, timer_state: HostTimerState, st: RunState) -> Seq<
    TimerCommand,
> {
    seq![TimerCommand::PauseGameTime] + (if mt_start_fires(w, timer_state) {
        seq![TimerCommand::Start]
    } else {
        Seq::<TimerCommand>::empty()
    }) + seq![
        TimerCommand::SetGameTime(spec_centis_to_nanos(mt_display_centis(w, timer_state, st))),
    ] + (if mt_end_fires(w) {
        seq![TimerCommand::Split]
    } else {
        Seq::<TimerCommand>::empty()
    })
}

/// One tick of the marathon state machine: elapsed time is a running
/// accumulator across back-to-back trials. A trial's end folds its adjusted
/// time into the accumulator and splits; a manual mid-trial restart instead
/// folds the pre-restart raw time and suppresses live time until control
/// returns; the accumulator is exposed as a diagnostic each tick.
pub fn marathon_tick(
    w: &Watchers,
    timer_state: HostTimerState,
    state: &mut RunState,
    diags: &mut Vec<Diag>,
) -> (cmds: Vec<TimerCommand>)
    ensures
        cmds@ == mt_tick_cmds(*w, timer_state, *old(state)),
        final(diags)@ == old(diags)@.push(
            Diag::IgtAccumulated(mt_acum_final(*w, timer_state, *old(state))),
        ),
        final(state).time_trial_marathon_timer_acum == mt_acum_final(
            *w,
            timer_state,
            *old(state),
        ),
        final(state).restarting_level == mt_restarting_final(*w, *old(state)),
        final(state).enable_il_restart == old(state).enable_il_restart,
        final(state).enable_level_split == old(state).enable_level_split,
        final(state).last_time_trial_split_time == old(state).last_time_trial_split_time,
        final(state).highest_boss_phase_split == old(state).highest_boss_phase_split,
{
    let mut cmds: Vec<TimerCommand> = Vec::new();
    cmds.push(TimerCommand::PauseGameTime);
    let ss = w.stage_state.obs();
    let ps = w.player_state.obs();
    let tt = w.time_trial_state.obs();
    let igt = w.time_trial_igt.obs();
    let bonus = w.time_trial_bonus_time.obs();
    if tt.current != tt.previous && tt.current == TimeTrialState::TA && ps.current
        == PlayerState::Control && timer_state == HostTimerState::NotRunning {
        state.time_trial_marathon_timer_acum = 0;
        cmds.push(TimerCommand::Start);
    }
    if state.restarting_level && ps.current == PlayerState::Control {
        state.restarting_level = false;
    }
    let current_igt_with_bonus = sat_sub_i64(igt.current, bonus_centis(bonus.current));
    if tt.current != tt.previous && tt.current == TimeTrialState::End {
        state.time_trial_marathon_timer_acum = sat_add_i64(
            state.time_trial_marathon_timer_acum,
            current_igt_with_bonus,
        );
    }
    if (ss.previous == StageState::Pause || ss.previous == StageState::DebugPause) && ss.current
        == StageState::PacDead {
        state.time_trial_marathon_timer_acum = sat_add_i64(
            state.time_trial_marathon_timer_acum,
            igt.previous,
        );
        state.restarting_level = true;
    }
    if (tt.current == TimeTrialState::TA || tt.current == TimeTrialState::Pause)
        && !state.restarting_level {
        cmds.push(
            TimerCommand::SetGameTime(
                centis_to_nanos(
                    sat_add_i64(state.time_trial_marathon_timer_acum, current_igt_with_bonus),
                ),
            ),
        );
    } else {
        cmds.push(TimerCommand::SetGameTime(centis_to_nanos(state.time_trial_marathon_timer_acum)));
    }
    if tt.current != tt.previous && tt.current == TimeTrialState::End {
        cmds.push(TimerCommand::Split);
    }
    diags.push(Diag::IgtAccumulated(state.time_trial_marathon_timer_acum));
    assert(cmds@ =~= mt_tick_cmds(*w, timer_state, *old(state)));
    cmds
}

} // verus!
