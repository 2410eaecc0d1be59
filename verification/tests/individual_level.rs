use repac_splitter::commands::TimerCommand;
use repac_splitter::modes::RunState;
use repac_splitter::modes::il_tick;
use repac_splitter::observation::Watchers;
use repac_splitter::settings::Settings;
use repac_splitter::states::PlayerState;
use repac_splitter::states::StageState;
use repac_splitter::states::TimerMode;

fn il_settings() -> Settings {
    let mut s = Settings::default();
    s.timer_mode = TimerMode::IL;
    s
}

#[test]
fn stage_init_to_control_arms_and_starts_in_one_tick() {
    let mut w = Watchers::new();
    w.player_state.update(PlayerState::StageInit);
    w.player_state.update(PlayerState::Control);
    let s = il_settings();
    let mut state = RunState::new();
    state.highest_boss_phase_split = 2;
    let cmds = il_tick(&w, &s, &mut state);
    assert_eq!(
        cmds,
        vec![
            TimerCommand::ResumeGameTime,
            TimerCommand::Reset,
            TimerCommand::Start,
            TimerCommand::ResumeGameTime,
            TimerCommand::SetGameTime(0),
        ]
    );
    // The latch was consumed exactly once and the phase mark re-zeroed.
    assert!(!state.enable_il_restart);
    assert_eq!(state.highest_boss_phase_split, 0);
}

#[test]
fn menu_restart_arms_without_starting() {
    let mut w = Watchers::new();
    w.stage_state.update(StageState::Pause);
    w.stage_state.update(StageState::PacDead);
    w.checkpoint.update(-1);
    w.checkpoint.update(-1);
    let s = il_settings();
    let mut state = RunState::new();
    let cmds = il_tick(&w, &s, &mut state);
    assert_eq!(cmds, vec![TimerCommand::ResumeGameTime]);
    assert!(state.enable_il_restart);
}

#[test]
fn an_armed_latch_is_consumed_by_the_next_control_edge() {
    let mut w = Watchers::new();
    w.player_state.update(PlayerState::Dead);
    w.player_state.update(PlayerState::Control);
    let s = il_settings();
    let mut state = RunState::new();
    state.enable_il_restart = true;
    let cmds = il_tick(&w, &s, &mut state);
    assert!(cmds.contains(&TimerCommand::Start));
    assert!(!state.enable_il_restart);
}

#[test]
fn a_control_edge_without_the_latch_does_not_start() {
    let mut w = Watchers::new();
    w.player_state.update(PlayerState::Dead);
    w.player_state.update(PlayerState::Control);
    let s = il_settings();
    let mut state = RunState::new();
    let cmds = il_tick(&w, &s, &mut state);
    assert_eq!(cmds, vec![TimerCommand::ResumeGameTime]);
}

#[test]
fn reaching_the_goal_flushes_the_run() {
    let mut w = Watchers::new();
    w.player_state.update(PlayerState::Control);
    w.player_state.update(PlayerState::Goal);
    let s = il_settings();
    let mut state = RunState::new();
    let cmds = il_tick(&w, &s, &mut state);
    // The loading resume, one hundred catch-up skips, the final split.
    assert_eq!(cmds.len(), 102);
    assert_eq!(cmds[0], TimerCommand::ResumeGameTime);
    for cmd in cmds.iter().skip(1).take(100) {
        assert_eq!(*cmd, TimerCommand::SkipSplit);
    }
    assert_eq!(cmds[101], TimerCommand::Split);
}

#[test]
fn checkpoint_catch_up_emits_its_skips_before_the_split() {
    let mut w = Watchers::new();
    w.checkpoint.update(2);
    w.checkpoint.update(5);
    let mut s = il_settings();
    s.split_checkpoint = true;
    let mut state = RunState::new();
    let cmds = il_tick(&w, &s, &mut state);
    assert_eq!(
        cmds,
        vec![
            TimerCommand::ResumeGameTime,
            TimerCommand::SkipSplit,
            TimerCommand::SkipSplit,
            TimerCommand::Split,
        ]
    );
}

#[test]
fn a_checkpoint_split_shadows_the_phase_split() {
    let mut w = Watchers::new();
    w.checkpoint.update(0);
    w.checkpoint.update(1);
    w.boss_state.update(1);
    w.boss_state.update(2);
    let mut s = il_settings();
    s.split_checkpoint = true;
    s.split_boss_phase = true;
    let mut state = RunState::new();
    let cmds = il_tick(&w, &s, &mut state);
    // One split for the checkpoint; the shadowed phase split leaves the
    // high-water mark untouched.
    assert_eq!(cmds, vec![TimerCommand::ResumeGameTime, TimerCommand::Split]);
    assert_eq!(state.highest_boss_phase_split, 0);
}
