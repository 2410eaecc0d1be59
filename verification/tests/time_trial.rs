use repac_splitter::commands::TimerCommand;
use repac_splitter::modes::RunState;
use repac_splitter::modes::time_trial_tick;
use repac_splitter::observation::Watchers;
use repac_splitter::settings::Settings;
use repac_splitter::states::Stages;
use repac_splitter::states::TimeTrialState;
use repac_splitter::states::TimerMode;

fn trial_settings() -> Settings {
    let mut s = Settings::default();
    s.timer_mode = TimerMode::TimeTrial;
    s.split_checkpoint = true;
    s
}

#[test]
fn negative_delta_is_suppressed_when_enabled() {
    let mut w = Watchers::new();
    // Previous split recorded at 30.00 s; the candidate's adjusted time is
    // 28.00 s.
    w.time_trial_igt.update(2800);
    w.checkpoint.update(1);
    w.checkpoint.update(2);
    let s = trial_settings();
    let mut state = RunState::new();
    state.last_time_trial_split_time = 3000;
    let cmds = time_trial_tick(&w, &s, &mut state);
    assert_eq!(
        cmds,
        vec![
            TimerCommand::PauseGameTime,
            TimerCommand::SetGameTime(28_000_000_000),
            TimerCommand::SkipSplit,
        ]
    );
    // The suppressed split does not move the recorded split time.
    assert_eq!(state.last_time_trial_split_time, 3000);
}

#[test]
fn negative_delta_splits_when_suppression_is_off() {
    let mut w = Watchers::new();
    w.time_trial_igt.update(2800);
    w.checkpoint.update(1);
    w.checkpoint.update(2);
    let mut s = trial_settings();
    s.time_trial_skip_negative = false;
    let mut state = RunState::new();
    state.last_time_trial_split_time = 3000;
    let cmds = time_trial_tick(&w, &s, &mut state);
    assert_eq!(
        cmds,
        vec![
            TimerCommand::PauseGameTime,
            TimerCommand::SetGameTime(28_000_000_000),
            TimerCommand::Split,
        ]
    );
    assert_eq!(state.last_time_trial_split_time, 2800);
}

#[test]
fn trial_start_zeroes_the_local_accumulators() {
    let mut w = Watchers::new();
    w.time_trial_state.update(TimeTrialState::NoneState);
    w.time_trial_state.update(TimeTrialState::TA);
    let s = trial_settings();
    let mut state = RunState::new();
    state.last_time_trial_split_time = 777;
    state.highest_boss_phase_split = 3;
    let cmds = time_trial_tick(&w, &s, &mut state);
    assert_eq!(
        cmds,
        vec![
            TimerCommand::PauseGameTime,
            TimerCommand::SetGameTime(0),
            TimerCommand::Start,
        ]
    );
    assert_eq!(state.last_time_trial_split_time, 0);
    assert_eq!(state.highest_boss_phase_split, 0);
}

#[test]
fn trial_end_flushes_the_run() {
    let mut w = Watchers::new();
    w.time_trial_state.update(TimeTrialState::TA);
    w.time_trial_state.update(TimeTrialState::End);
    let s = trial_settings();
    let mut state = RunState::new();
    let cmds = time_trial_tick(&w, &s, &mut state);
    // Pause, the overwritten time, one hundred catch-up skips, the final
    // split.
    assert_eq!(cmds.len(), 103);
    assert_eq!(cmds[0], TimerCommand::PauseGameTime);
    assert_eq!(cmds[1], TimerCommand::SetGameTime(0));
    for cmd in cmds.iter().skip(2).take(100) {
        assert_eq!(*cmd, TimerCommand::SkipSplit);
    }
    assert_eq!(cmds[102], TimerCommand::Split);
}

#[test]
fn bonus_time_is_discounted_when_enabled() {
    let mut w = Watchers::new();
    w.time_trial_igt.update(5000);
    w.time_trial_bonus_time.update(10); // ten seconds of bonus clocks
    let s = trial_settings();
    let mut state = RunState::new();
    let cmds = time_trial_tick(&w, &s, &mut state);
    // 50.00 s minus 10 s of bonus: 40.00 s.
    assert_eq!(cmds[1], TimerCommand::SetGameTime(40_000_000_000));
}

#[test]
fn bonus_time_is_kept_when_discounting_is_off() {
    let mut w = Watchers::new();
    w.time_trial_igt.update(5000);
    w.time_trial_bonus_time.update(10);
    let mut s = trial_settings();
    s.time_trial_discount_bonus = false;
    let mut state = RunState::new();
    let cmds = time_trial_tick(&w, &s, &mut state);
    assert_eq!(cmds[1], TimerCommand::SetGameTime(50_000_000_000));
}

#[test]
fn an_aborted_trial_resets() {
    let mut w = Watchers::new();
    w.time_trial_state.update(TimeTrialState::NoneState);
    w.time_trial_state.update(TimeTrialState::NoneState);
    w.time_trial_igt.update(100);
    w.time_trial_igt.update(150);
    let s = trial_settings();
    let mut state = RunState::new();
    let cmds = time_trial_tick(&w, &s, &mut state);
    assert_eq!(*cmds.last().unwrap(), TimerCommand::Reset);
}

#[test]
fn returning_to_the_stage_select_resets() {
    let mut w = Watchers::new();
    w.level_id.update(Stages::Stage1_1);
    w.level_id.update(Stages::StageSelect);
    let s = trial_settings();
    let mut state = RunState::new();
    let cmds = time_trial_tick(&w, &s, &mut state);
    assert_eq!(*cmds.last().unwrap(), TimerCommand::Reset);
}
