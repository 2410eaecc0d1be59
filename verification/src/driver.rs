//! The per-tick driver step.
//!
//! The host's polling cadence owns the loop; the library owns one whole
//! read-observe-decide cycle. Each tick the driver refreshes the
//! observations from this tick's metadata and memory view, runs the active
//! mode's state machine over them, and hands back the timer commands and
//! diagnostic values for the host to perform before it suspends until the
//! next tick.
use vstd::prelude::*;

use crate::commands::Diag;
use crate::commands::TimerCommand;
use crate::mem_table::MemTable;
use crate::memory::Memory;
use crate::memory::spec_boss_read;
use crate::memory::spec_is_boss_level;
use crate::memory::spec_level_changed;
use crate::memory::spec_level_value;
use crate::memory::spec_players_ptr;
use crate::memory::spec_stage_read;
use crate::memory::spec_tick_diags;
use crate::memory::spec_tick_watchers;
use crate::memory::update_watchers;
use crate::metadata::ClassId;
use crate::metadata::FieldId;
use crate::resolve::cache_evolved;
use crate::metadata::Metadata;
use crate::modes::RunState;
use crate::modes::fg_enable_mid;
use crate::modes::fg_split_fires;
use crate::modes::fg_tick_cmds;
use crate::modes::full_game_tick;
use crate::modes::il_armed_mid;
use crate::modes::il_boss_fires;
use crate::modes::il_highest_mid;
use crate::modes::il_start_fires;
use crate::modes::il_tick;
use crate::modes::il_tick_cmds;
use crate::modes::marathon_tick;
use crate::modes::mt_acum_final;
use crate::modes::mt_restarting_final;
use crate::modes::mt_tick_cmds;
use crate::modes::time_trial_tick;
use crate::modes::trial_adjusted_centis;
use crate::modes::tt_boss_fires;
use crate::modes::tt_cp_fires;
use crate::modes::tt_highest_mid;
use crate::modes::tt_last_mid;
use crate::modes::tt_suppress;
use crate::modes::tt_tick_cmds;
use crate::observation::Watchers;
use crate::settings::Settings;
use crate::states::HostTimerState;
use crate::states::TimerMode;

verus! {

/// One full read-observe-decide cycle.
///
/// Refreshes every observation from this tick's metadata and memory view
/// (the in-game time arriving pre-converted to centiseconds, `None` for a
/// failed read), then runs the active mode's state machine, and returns
/// the timer commands and diagnostic values of this tick, in order. The
/// watcher set, the per-level path caches, the player-step offset and the
/// accumulator state evolve exactly as the observation refresh and the
/// mode's tick say; the symbolic paths themselves never change.
pub fn run_tick(
    meta: &Metadata,
    mem: &MemTable,
    s: &Settings,
    memory: &mut Memory,
    watchers: &mut Watchers,
    state: &mut RunState,
    timer_state: HostTimerState,
    igt_centis: Option<i64>,
) -> (r: (Vec<TimerCommand>, Vec<Diag>))
    ensures
        *final(watchers) == spec_tick_watchers(
            *old(memory),
            *old(watchers),
            *meta,
            *mem,
            *s,
            igt_centis,
        ),
        r.0@ == match s.timer_mode {
            TimerMode::FullGame => fg_tick_cmds(*final(watchers), *s, *old(state)),
            TimerMode::IL => il_tick_cmds(*final(watchers), *s, *old(state)),
            TimerMode::TimeTrial => tt_tick_cmds(*final(watchers), *s, *old(state)),
            TimerMode::TimeTrialMarathon => mt_tick_cmds(
                *final(watchers),
                timer_state,
                *old(state),
            ),
        },
        r.1@ == {
            let base = spec_tick_diags(
                *old(memory),
                *old(watchers),
                *meta,
                *mem,
                *s,
                igt_centis,
            );
            if s.timer_mode == TimerMode::TimeTrialMarathon {
                base.push(
                    Diag::IgtAccumulated(
                        mt_acum_final(*final(watchers), timer_state, *old(state)),
                    ),
                )
            } else {
                base
            }
        },
        s.timer_mode == TimerMode::FullGame ==> *final(state) == (RunState {
            enable_level_split: fg_enable_mid(*final(watchers), *old(state)) && !fg_split_fires(
                *final(watchers),
                *s,
                *old(state),
            ),
            ..*old(state)
        }),
        s.timer_mode == TimerMode::IL ==> *final(state) == (RunState {
            enable_il_restart: il_armed_mid(*final(watchers), *old(state)) && !il_start_fires(
                *final(watchers),
                *s,
                *old(state),
            ),
            highest_boss_phase_split: if il_boss_fires(*final(watchers), *s, *old(state)) {
                final(watchers).boss_state.spec_obs().current
            } else {
                il_highest_mid(*final(watchers), *s, *old(state))
            },
            ..*old(state)
        }),
        s.timer_mode == TimerMode::TimeTrial ==> *final(state) == (RunState {
            last_time_trial_split_time: if tt_cp_fires(*final(watchers), *s) && !tt_suppress(
                *final(watchers),
                *s,
                *old(state),
            ) {
                trial_adjusted_centis(*final(watchers))
            } else {
                tt_last_mid(*final(watchers), *old(state))
            },
            highest_boss_phase_split: if tt_boss_fires(*final(watchers), *s, *old(state)) {
                final(watchers).boss_state.spec_obs().current
            } else {
                tt_highest_mid(*final(watchers), *old(state))
            },
            ..*old(state)
        }),
        s.timer_mode == TimerMode::TimeTrialMarathon ==> *final(state) == (RunState {
            time_trial_marathon_timer_acum: mt_acum_final(
                *final(watchers),
                timer_state,
                *old(state),
            ),
            restarting_level: mt_restarting_final(*final(watchers), *old(state)),
            ..*old(state)
        }),
        final(memory).is_loading == old(memory).is_loading,
        final(memory).loadscreen_ui == old(memory).loadscreen_ui,
        final(memory).level_id == old(memory).level_id,
        final(memory).checkpoint == old(memory).checkpoint,
        final(memory).time_trial_igt == old(memory).time_trial_igt,
        final(memory).time_trial_state == old(memory).time_trial_state,
        final(memory).time_trial_bonus_list == old(memory).time_trial_bonus_list,
        final(memory).spooky_qte_success == old(memory).spooky_qte_success,
        final(memory).players_array == old(memory).players_array,
        cache_evolved(
            old(memory).boss_state,
            final(memory).boss_state,
            spec_level_changed(*old(memory), *old(watchers), *meta, *mem),
            spec_boss_read(*s, spec_level_value(*old(memory), *meta, *mem))
                && spec_is_boss_level(spec_level_value(*old(memory), *meta, *mem)),
            *meta,
        ),
        cache_evolved(
            old(memory).stage_manager_state,
            final(memory).stage_manager_state,
            spec_level_changed(*old(memory), *old(watchers), *meta, *mem),
            spec_stage_read(*s, spec_level_value(*old(memory), *meta, *mem)),
            *meta,
        ),
        final(memory).player_state_offset == if spec_players_ptr(*old(memory), *meta, *mem) is Some
            && old(memory).player_state_offset is None {
            meta.spec_field_offset(ClassId::PlayerPacman, FieldId::Step)
        } else {
            old(memory).player_state_offset
        },
{
    let mut diags = update_watchers(meta, mem, s, memory, watchers, igt_centis);
    proof {
        assert(*watchers == spec_tick_watchers(
            *old(memory),
            *old(watchers),
            *meta,
            *mem,
            *s,
            igt_centis,
        ));
    }
    let cmds = match s.timer_mode {
        TimerMode::FullGame => full_game_tick(watchers, s, state),
        TimerMode::IL => il_tick(watchers, s, state),
        TimerMode::TimeTrial => time_trial_tick(watchers, s, state),
        TimerMode::TimeTrialMarathon => marathon_tick(watchers, timer_state, state, &mut diags),
    };
    (cmds, diags)
}

} // verus!
