use repac_splitter::commands::Diag;
use repac_splitter::commands::TimerCommand;
use repac_splitter::modes::RunState;
use repac_splitter::modes::marathon_tick;
use repac_splitter::observation::Watchers;
use repac_splitter::states::HostTimerState;
use repac_splitter::states::PlayerState;
use repac_splitter::states::StageState;
use repac_splitter::states::TimeTrialState;

fn displayed_times(cmds: &[TimerCommand]) -> Vec<i64> {
    cmds.iter()
        .filter_map(|c| match c {
            TimerCommand::SetGameTime(t) => Some(*t),
            _ => None,
        })
        .collect()
}

#[test]
fn two_trials_accumulate_and_split_twice() {
    let mut w = Watchers::new();
    let mut state = RunState::new();
    let mut diags: Vec<Diag> = Vec::new();
    let mut splits: usize = 0;

    // Trial A starts: the accumulator zeroes and the timer starts.
    w.player_state.update(PlayerState::Control);
    w.time_trial_state.update(TimeTrialState::NoneState);
    w.time_trial_state.update(TimeTrialState::TA);
    w.time_trial_igt.update(0);
    let cmds = marathon_tick(&w, HostTimerState::NotRunning, &mut state, &mut diags);
    assert!(cmds.contains(&TimerCommand::Start));
    assert_eq!(state.time_trial_marathon_timer_acum, 0);

    // Trial A runs at 50.00 s: displayed time is accumulator plus the live
    // trial's adjusted time.
    w.time_trial_state.update(TimeTrialState::TA);
    w.time_trial_igt.update(5000);
    let cmds = marathon_tick(&w, HostTimerState::Running, &mut state, &mut diags);
    assert_eq!(displayed_times(&cmds), vec![50_000_000_000]);

    // Trial A ends: its adjusted time folds into the accumulator and a
    // split fires.
    w.time_trial_state.update(TimeTrialState::End);
    let cmds = marathon_tick(&w, HostTimerState::Running, &mut state, &mut diags);
    splits += cmds.iter().filter(|c| **c == TimerCommand::Split).count();
    assert_eq!(state.time_trial_marathon_timer_acum, 5000);
    assert_eq!(splits, 1);
    assert_eq!(*diags.last().unwrap(), Diag::IgtAccumulated(5000));

    // Trial B runs at 30.00 s and ends: the accumulator grows and a second
    // split fires.
    w.time_trial_state.update(TimeTrialState::TA);
    w.time_trial_igt.update(3000);
    let cmds = marathon_tick(&w, HostTimerState::Running, &mut state, &mut diags);
    assert_eq!(displayed_times(&cmds), vec![80_000_000_000]);
    w.time_trial_state.update(TimeTrialState::End);
    let cmds = marathon_tick(&w, HostTimerState::Running, &mut state, &mut diags);
    splits += cmds.iter().filter(|c| **c == TimerCommand::Split).count();
    assert_eq!(state.time_trial_marathon_timer_acum, 8000);
    assert_eq!(splits, 2);
    assert_eq!(*diags.last().unwrap(), Diag::IgtAccumulated(8000));
}

#[test]
fn displayed_time_never_exceeds_accumulator_plus_trial_time() {
    let mut w = Watchers::new();
    let mut state = RunState::new();
    let mut diags: Vec<Diag> = Vec::new();
    w.player_state.update(PlayerState::Control);
    w.time_trial_state.update(TimeTrialState::NoneState);
    let ticks: [(TimeTrialState, i64); 6] =
        [(TimeTrialState::TA, 0), (TimeTrialState::TA, 2000), (TimeTrialState::Pause, 2500),
            (TimeTrialState::TA, 2500), (TimeTrialState::End, 4000), (TimeTrialState::TA, 0)];
    let mut timer_state = HostTimerState::NotRunning;
    for (trial_state, igt) in ticks {
        w.time_trial_state.update(trial_state);
        w.time_trial_igt.update(igt);
        let cmds = marathon_tick(&w, timer_state, &mut state, &mut diags);
        let bound = (state.time_trial_marathon_timer_acum + igt) * 10_000_000;
        for t in displayed_times(&cmds) {
            assert!(t <= bound);
        }
        timer_state = HostTimerState::Running;
    }
}

#[test]
fn a_manual_restart_folds_the_raw_time_and_latches() {
    let mut w = Watchers::new();
    let mut state = RunState::new();
    let mut diags: Vec<Diag> = Vec::new();
    state.time_trial_marathon_timer_acum = 1000;
    // The runner pauses at 20.00 s and restarts the level.
    w.time_trial_state.update(TimeTrialState::TA);
    w.time_trial_state.update(TimeTrialState::TA);
    w.time_trial_igt.update(2000);
    w.time_trial_igt.update(0);
    w.stage_state.update(StageState::Pause);
    w.stage_state.update(StageState::PacDead);
    let cmds = marathon_tick(&w, HostTimerState::Running, &mut state, &mut diags);
    // The pre-restart raw time folds in, and live time is suppressed: the
    // accumulator alone is displayed.
    assert_eq!(state.time_trial_marathon_timer_acum, 3000);
    assert!(state.restarting_level);
    assert_eq!(displayed_times(&cmds), vec![30_000_000_000]);

    // Control returns: the latch clears and live time shows again.
    w.stage_state.update(StageState::Playing);
    w.player_state.update(PlayerState::Control);
    w.time_trial_igt.update(100);
    let cmds = marathon_tick(&w, HostTimerState::Running, &mut state, &mut diags);
    assert!(!state.restarting_level);
    assert_eq!(displayed_times(&cmds), vec![31_000_000_000]);
}
