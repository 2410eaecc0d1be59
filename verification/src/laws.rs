//! The library-wide laws, each proved once and for all inputs.
use vstd::prelude::*;

use crate::Observation;
use crate::commands::FLUSH_SKIP_COUNT;
use crate::commands::TimerCommand;
use crate::commands::flush_cmds;
use crate::mem_table::MemTable;
use crate::memory::Memory;
use crate::memory::spec_players_ptr;
use crate::memory::spec_tick_watchers;
use crate::metadata::Metadata;
use crate::modes::RunState;
use crate::modes::boss_phase_triggers;
use crate::modes::mt_acum_final;
use crate::modes::mt_end_fires;
use crate::modes::mt_manual_restart;
use crate::modes::mt_restarting_final;
use crate::modes::mt_start_fires;
use crate::modes::mt_tick_cmds;
use crate::modes::mt_display_centis;
use crate::modes::trial_adjusted_centis;
use crate::observation::Watcher;
use crate::observation::Watchers;
use crate::resolve::spec_derive_ok;
use crate::settings::Settings;
use crate::states::HostTimerState;

verus! {

/// The watcher law: after observing `v1` and then `v2`, a quantity's
/// observation holds exactly `v1` as the previous and `v2` as the current
/// value — values are never read back further than one tick — and the
/// changed edge holds exactly when the two differ.
pub proof fn lemma_update_twice<T: Copy>(w: Watcher<T>, v1: T, v2: T)
    ensures
        ({
            let w2 = w.spec_update(v1).spec_update(v2);
            &&& w2.pair is Some
            &&& w2.pair->Some_0.previous == v1
            &&& w2.pair->Some_0.current == v2
            &&& w2.spec_obs().spec_changed() == (v1 != v2)
        }),
{
}

/// The high-water-mark law: once a phase split has been awarded, no later
/// observation whose phase does not exceed the awarded one can fire again,
/// whatever the mark was before — so a phase that oscillates down and back
/// up (a boss reset on player death) is never re-awarded its split.
pub proof fn lemma_boss_phase_high_water(
    bp1: Observation<u32>,
    bp2: Observation<u32>,
    s: Settings,
    highest: u32,
)
    requires
        boss_phase_triggers(bp1, s, highest),
        bp2.current <= bp1.current,
    ensures
        !boss_phase_triggers(bp2, s, bp1.current),
{
}

/// The end-of-run flush law: the flush is always exactly its documented
/// count of skip-splits followed by exactly one split, whatever preceded
/// it.
pub proof fn lemma_flush_shape()
    ensures
        flush_cmds().len() == FLUSH_SKIP_COUNT + 1,
        forall|i: int|
            0 <= i < FLUSH_SKIP_COUNT ==> flush_cmds()[i] == TimerCommand::SkipSplit,
        flush_cmds()[FLUSH_SKIP_COUNT as int] == TimerCommand::Split,
{
}

/// The marathon display law: as long as the live trial's adjusted time is
/// not negative, the elapsed time a marathon tick displays never exceeds
/// the accumulator it leaves behind plus that adjusted time. (A trial
/// whose bonus time exceeds its raw time makes the adjusted time negative;
/// during a manual restart the accumulator alone is displayed, which then
/// exceeds the bound, so such inputs are excluded.)
pub proof fn lemma_marathon_display_bound(
    w: Watchers,
    timer_state: HostTimerState,
    st: RunState,
)
    requires
        trial_adjusted_centis(w) >= 0,
    ensures
        mt_display_centis(w, timer_state, st) <= mt_acum_final(w, timer_state, st)
            + trial_adjusted_centis(w),
{
}

/// The marathon accumulator law: over two back-to-back trials that end with
/// adjusted times `t_a` and `t_b` — no manual restart and no fresh start in
/// between, times small enough that nothing saturates — the first end folds
/// exactly `t_a` into the empty accumulator and its tick's commands close
/// with the trial's split; the second end brings the accumulator to exactly
/// `t_a + t_b` and splits again; and neither tick emits any further split.
pub proof fn lemma_marathon_two_trials(
    w1: Watchers,
    w2: Watchers,
    ts1: HostTimerState,
    ts2: HostTimerState,
    st0: RunState,
    t_a: i64,
    t_b: i64,
)
    requires
        mt_end_fires(w1),
        !mt_manual_restart(w1),
        !mt_start_fires(w1, ts1),
        trial_adjusted_centis(w1) == t_a,
        mt_end_fires(w2),
        !mt_manual_restart(w2),
        !mt_start_fires(w2, ts2),
        trial_adjusted_centis(w2) == t_b,
        st0.time_trial_marathon_timer_acum == 0,
        -0x1000_0000_0000 <= t_a <= 0x1000_0000_0000,
        -0x1000_0000_0000 <= t_b <= 0x1000_0000_0000,
    ensures
        ({
            let st1 = RunState {
                time_trial_marathon_timer_acum: mt_acum_final(w1, ts1, st0),
                restarting_level: mt_restarting_final(w1, st0),
                ..st0
            };
            let cmds1 = mt_tick_cmds(w1, ts1, st0);
            let cmds2 = mt_tick_cmds(w2, ts2, st1);
            &&& st1.time_trial_marathon_timer_acum == t_a
            &&& cmds1.last() == TimerCommand::Split
            &&& forall|i: int| 0 <= i < cmds1.len() - 1 ==> cmds1[i] != TimerCommand::Split
            &&& mt_acum_final(w2, ts2, st1) == t_a + t_b
            &&& cmds2.last() == TimerCommand::Split
            &&& forall|i: int| 0 <= i < cmds2.len() - 1 ==> cmds2[i] != TimerCommand::Split
        }),
{
}

/// The degradation law: when the live metadata cannot resolve a tracked
/// quantity's path — its anchor class or a field name is not (yet) known —
/// the tick still completes and the dependent observation receives the
/// type's default value: false for the loading flag, zero for the
/// checkpoint counter. And when the player-array pointer fails to resolve,
/// the player observation is shifted with its last-known-good value, so it
/// carries no changed edge out of the failed tick: a one-shot transition
/// observed earlier can never re-fire off a failed read.
pub proof fn lemma_resolver_degradation(
    m: Memory,
    w: Watchers,
    meta: Metadata,
    mem: MemTable,
    s: Settings,
    igt_centis: Option<i64>,
)
    ensures
        !spec_derive_ok(m.is_loading, meta) ==> spec_tick_watchers(
            m,
            w,
            meta,
            mem,
            s,
            igt_centis,
        ).is_loading.spec_obs().current == false,
        !spec_derive_ok(m.checkpoint, meta) ==> spec_tick_watchers(
            m,
            w,
            meta,
            mem,
            s,
            igt_centis,
        ).checkpoint.spec_obs().current == 0,
        spec_players_ptr(m, meta, mem) is None ==> !spec_tick_watchers(
            m,
            w,
            meta,
            mem,
            s,
            igt_centis,
        ).player_state.spec_obs().spec_changed(),
{
}

} // verus!
