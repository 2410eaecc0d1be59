use repac_splitter::states::PlayerState;
use repac_splitter::states::StageState;
use repac_splitter::states::Stages;
use repac_splitter::states::TimeTrialState;
use repac_splitter::states::get_stage_manager_state;
use repac_splitter::states::player_state_from_u32;
use repac_splitter::states::player_state_to_string;
use repac_splitter::states::stage_from_u32;
use repac_splitter::states::stage_name;
use repac_splitter::states::stage_state_to_string;
use repac_splitter::states::time_trial_state_int_to_enum;
use repac_splitter::states::time_trial_state_to_string;

#[test]
fn scene_codes_map_to_stages() {
    assert_eq!(stage_from_u32(0), Stages::Title);
    assert_eq!(stage_from_u32(1), Stages::Movie);
    assert_eq!(stage_from_u32(3), Stages::StageSelect);
    assert_eq!(stage_from_u32(10), Stages::Stage1_1);
    assert_eq!(stage_from_u32(34), Stages::Stage6_5);
    assert_eq!(stage_from_u32(63), Stages::Stage6_4Past);
}

#[test]
fn unmapped_scene_codes_are_unknown() {
    assert_eq!(stage_from_u32(9), Stages::Unknown);
    assert_eq!(stage_from_u32(100_000), Stages::Unknown);
}

#[test]
fn stage_names() {
    assert_eq!(stage_name(Stages::PacVillage), "Pac Village");
    assert_eq!(stage_name(Stages::Stage3_2), "Stage 3-2");
    assert_eq!(stage_name(Stages::Stage5_1Past), "Stage 5-1 Past");
}

#[test]
fn player_steps_map_to_states() {
    assert_eq!(player_state_from_u32(0), PlayerState::NoneState);
    assert_eq!(player_state_from_u32(1), PlayerState::Control);
    assert_eq!(player_state_from_u32(12), PlayerState::StageInit);
    assert_eq!(player_state_from_u32(15), PlayerState::Dead);
    assert_eq!(player_state_from_u32(16), PlayerState::Goal);
    assert_eq!(player_state_from_u32(18), PlayerState::Shooting);
    assert_eq!(player_state_from_u32(100), PlayerState::ReadError);
    assert_eq!(player_state_from_u32(55), PlayerState::Unknown);
}

#[test]
fn player_state_names() {
    assert_eq!(player_state_to_string(PlayerState::NoneState), "None");
    assert_eq!(player_state_to_string(PlayerState::SnowBallDamage), "Snow Ball Damage");
    assert_eq!(player_state_to_string(PlayerState::ReadError), "ASR Memory Read Error");
    assert_eq!(player_state_to_string(PlayerState::OffsetNotReady), "ASR Offset Not Ready");
    assert_eq!(player_state_to_string(PlayerState::Unknown), "UNKNOWN");
}

#[test]
fn stage_manager_steps_map_to_states() {
    assert_eq!(get_stage_manager_state(0), StageState::NoneState);
    assert_eq!(get_stage_manager_state(4), StageState::Pause);
    assert_eq!(get_stage_manager_state(7), StageState::PacDead);
    assert_eq!(get_stage_manager_state(10), StageState::Exit);
    assert_eq!(get_stage_manager_state(11), StageState::Unknown);
}

#[test]
fn stage_state_names() {
    assert_eq!(stage_state_to_string(StageState::PacDead), "Pac Dead");
    assert_eq!(stage_state_to_string(StageState::DebugPause), "Debug Pause");
}

#[test]
fn trial_steps_map_to_states() {
    assert_eq!(time_trial_state_int_to_enum(0), TimeTrialState::NoneState);
    assert_eq!(time_trial_state_int_to_enum(3), TimeTrialState::TA);
    assert_eq!(time_trial_state_int_to_enum(5), TimeTrialState::End);
    assert_eq!(time_trial_state_int_to_enum(6), TimeTrialState::Unknown);
}

#[test]
fn trial_state_names() {
    assert_eq!(time_trial_state_to_string(TimeTrialState::NoneState), "None");
    assert_eq!(time_trial_state_to_string(TimeTrialState::ReadyWait), "Ready_Wait");
    assert_eq!(time_trial_state_to_string(TimeTrialState::TA), "TA");
}
