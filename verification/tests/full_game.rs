use repac_splitter::commands::TimerCommand;
use repac_splitter::modes::FULL_GAME_START_OFFSET_NANOS;
use repac_splitter::modes::RunState;
use repac_splitter::modes::enable_full_game_level_splits;
use repac_splitter::modes::full_game_tick;
use repac_splitter::modes::split_full_game;
use repac_splitter::modes::start;
use repac_splitter::observation::Watchers;
use repac_splitter::settings::Settings;
use repac_splitter::states::PlayerState;
use repac_splitter::states::Stages;

#[test]
fn start_fires_on_title_to_movie() {
    let mut w = Watchers::new();
    w.level_id.update(Stages::Title);
    w.level_id.update(Stages::Movie);
    let s = Settings::default();
    assert!(start(&w, &s));
}

#[test]
fn start_needs_the_option() {
    let mut w = Watchers::new();
    w.level_id.update(Stages::Title);
    w.level_id.update(Stages::Movie);
    let mut s = Settings::default();
    s.start_new_game = false;
    assert!(!start(&w, &s));
}

#[test]
fn start_ignores_other_transitions() {
    let mut w = Watchers::new();
    w.level_id.update(Stages::PacVillage);
    w.level_id.update(Stages::Movie);
    let s = Settings::default();
    assert!(!start(&w, &s));
}

#[test]
fn an_unobserved_level_never_starts() {
    let w = Watchers::new();
    let s = Settings::default();
    assert!(!start(&w, &s));
}

#[test]
fn goal_edge_arms_the_level_split_latch() {
    let mut w = Watchers::new();
    w.player_state.update(PlayerState::Control);
    w.player_state.update(PlayerState::Goal);
    assert!(enable_full_game_level_splits(&w));
}

#[test]
fn stage_select_from_the_village_arms_the_latch() {
    let mut w = Watchers::new();
    w.level_id.update(Stages::PacVillage);
    w.level_id.update(Stages::StageSelect);
    assert!(enable_full_game_level_splits(&w));
}

#[test]
fn level_exit_splits_only_while_armed() {
    let mut w = Watchers::new();
    w.level_id.update(Stages::Stage1_1);
    w.level_id.update(Stages::StageSelect);
    let s = Settings::default();
    assert!(split_full_game(&w, &s, true));
    assert!(!split_full_game(&w, &s, false));
}

#[test]
fn tocman_defeat_splits_on_the_final_stage() {
    let mut w = Watchers::new();
    w.level_id.update(Stages::Stage6_5);
    w.level_id.update(Stages::Stage6_5);
    w.boss_state.update(3);
    w.boss_state.update(4);
    let s = Settings::default();
    assert!(split_full_game(&w, &s, false));
}

#[test]
fn start_tick_emits_reset_start_and_the_synthetic_offset() {
    let mut w = Watchers::new();
    w.level_id.update(Stages::Title);
    w.level_id.update(Stages::Movie);
    let s = Settings::default();
    let mut state = RunState::new();
    let cmds = full_game_tick(&w, &s, &mut state);
    assert_eq!(
        cmds,
        vec![
            TimerCommand::ResumeGameTime,
            TimerCommand::Reset,
            TimerCommand::Start,
            TimerCommand::SetGameTime(FULL_GAME_START_OFFSET_NANOS),
        ]
    );
}

#[test]
fn loading_pauses_elapsed_time() {
    let mut w = Watchers::new();
    w.is_loading.update(true);
    let s = Settings::default();
    let mut state = RunState::new();
    let cmds = full_game_tick(&w, &s, &mut state);
    assert_eq!(cmds, vec![TimerCommand::PauseGameTime]);
}

#[test]
fn mid_animation_progress_pauses_elapsed_time() {
    let mut w = Watchers::new();
    // The raw encoding of one half: strictly between zero and one.
    w.load_ui_progress_bits.update(0x3F00_0000);
    let s = Settings::default();
    let mut state = RunState::new();
    let cmds = full_game_tick(&w, &s, &mut state);
    assert_eq!(cmds, vec![TimerCommand::PauseGameTime]);
}

#[test]
fn finished_progress_resumes_elapsed_time() {
    let mut w = Watchers::new();
    // The raw encoding of exactly one: the animation is over.
    w.load_ui_progress_bits.update(0x3F80_0000);
    let s = Settings::default();
    let mut state = RunState::new();
    let cmds = full_game_tick(&w, &s, &mut state);
    assert_eq!(cmds, vec![TimerCommand::ResumeGameTime]);
}

#[test]
fn the_split_consumes_the_latch() {
    let mut w = Watchers::new();
    w.level_id.update(Stages::Stage1_1);
    w.level_id.update(Stages::StageSelect);
    let s = Settings::default();
    let mut state = RunState::new();
    state.enable_level_split = true;
    let cmds = full_game_tick(&w, &s, &mut state);
    assert_eq!(cmds, vec![TimerCommand::ResumeGameTime, TimerCommand::Split]);
    assert!(!state.enable_level_split);
}
