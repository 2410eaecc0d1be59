//! The canonical enumerations of the observed game concepts, together with
//! the raw-code-to-enum data tables: each tracked quantity that the game
//! stores as a small integer is mapped to one tagged enum with an explicit
//! `Unknown` member for codes that no table row covers.
use vstd::prelude::*;

verus! {

/// Which timing discipline the state machine runs this attachment.
#[derive(Clone, Copy, PartialEq, Eq, Structural, Debug)]
pub enum TimerMode {
    FullGame,
    IL,
    TimeTrial,
    TimeTrialMarathon,
}

/// The host timer's externally owned state, as reported back to the state
/// machine at the start of a tick.
#[derive(Clone, Copy, PartialEq, Eq, Structural, Debug)]
pub enum HostTimerState {
    NotRunning,
    Running,
    Paused,
    Ended,
    Unknown,
}

/// The level identifier: one member per scene the game can load, plus
/// `Unknown` for raw scene codes outside the table.
#[derive(Clone, Copy, PartialEq, Eq, Structural, Debug)]
pub enum Stages {
    Title,
    Movie,
    PacVillage,
    StageSelect,
    StageSelectPast,
    Stage1_1,
    Stage1_2,
    Stage1_3,
    Stage1_4,
    Stage2_1,
    Stage2_2,
    Stage2_3,
    Stage2_4,
    Stage3_1,
    Stage3_2,
    Stage3_3,
    Stage3_4,
    Stage4_1,
    Stage4_2,
    Stage4_3,
    Stage4_4,
    Stage5_1,
    Stage5_2,
    Stage5_3,
    Stage5_4,
    Stage6_1,
    Stage6_2,
    Stage6_3,
    Stage6_4,
    Stage6_5,
    Stage1_1Past,
    Stage1_2Past,
    Stage1_3Past,
    Stage1_4Past,
    Stage2_1Past,
    Stage2_2Past,
    Stage2_3Past,
    Stage2_4Past,
    Stage3_1Past,
    Stage3_2Past,
    Stage3_3Past,
    Stage3_4Past,
    Stage4_1Past,
    Stage4_2Past,
    Stage4_3Past,
    Stage4_4Past,
    Stage5_1Past,
    Stage5_2Past,
    Stage5_3Past,
    Stage5_4Past,
    Stage6_1Past,
    Stage6_2Past,
    Stage6_3Past,
    Stage6_4Past,
    Unknown,
}

/// The scene-code table: which raw scene identifier denotes which stage.
pub open spec fn spec_stage_from_u32(raw: u32) -> Stages {
    match raw {
        0 => Stages::Title,
        1 => Stages::Movie,
        2 => Stages::PacVillage,
        3 => Stages::StageSelect,
        4 => Stages::StageSelectPast,
        10 => Stages::Stage1_1,
        11 => Stages::Stage1_2,
        12 => Stages::Stage1_3,
        13 => Stages::Stage1_4,
        14 => Stages::Stage2_1,
        15 => Stages::Stage2_2,
        16 => Stages::Stage2_3,
        17 => Stages::Stage2_4,
        18 => Stages::Stage3_1,
        19 => Stages::Stage3_2,
        20 => Stages::Stage3_3,
        21 => Stages::Stage3_4,
        22 => Stages::Stage4_1,
        23 => Stages::Stage4_2,
        24 => Stages::Stage4_3,
        25 => Stages::Stage4_4,
        26 => Stages::Stage5_1,
        27 => Stages::Stage5_2,
        28 => Stages::Stage5_3,
        29 => Stages::Stage5_4,
        30 => Stages::Stage6_1,
        31 => Stages::Stage6_2,
        32 => Stages::Stage6_3,
        33 => Stages::Stage6_4,
        34 => Stages::Stage6_5,
        40 => Stages::Stage1_1Past,
        41 => Stages::Stage1_2Past,
        42 => Stages::Stage1_3Past,
        43 => Stages::Stage1_4Past,
        44 => Stages::Stage2_1Past,
        45 => Stages::Stage2_2Past,
        46 => Stages::Stage2_3Past,
        47 => Stages::Stage2_4Past,
        48 => Stages::Stage3_1Past,
        49 => Stages::Stage3_2Past,
        50 => Stages::Stage3_3Past,
        51 => Stages::Stage3_4Past,
        52 => Stages::Stage4_1Past,
        53 => Stages::Stage4_2Past,
        54 => Stages::Stage4_3Past,
        55 => Stages::Stage4_4Past,
        56 => Stages::Stage5_1Past,
        57 => Stages::Stage5_2Past,
        58 => Stages::Stage5_3Past,
        59 => Stages::Stage5_4Past,
        60 => Stages::Stage6_1Past,
        61 => Stages::Stage6_2Past,
        62 => Stages::Stage6_3Past,
        63 => Stages::Stage6_4Past,
        _ => Stages::Unknown,
    }
}

/// Maps a raw scene identifier read from the game to its stage, `Unknown`
/// for any code outside the table.
pub fn stage_from_u32(raw: u32) -> (r: Stages)
    ensures
        r == spec_stage_from_u32(raw),
{
    match raw {
        0 => Stages::Title,
        1 => Stages::Movie,
        2 => Stages::PacVillage,
        3 => Stages::StageSelect,
        4 => Stages::StageSelectPast,
        10 => Stages::Stage1_1,
        11 => Stages::Stage1_2,
        12 => Stages::Stage1_3,
        13 => Stages::Stage1_4,
        14 => Stages::Stage2_1,
        15 => Stages::Stage2_2,
        16 => Stages::Stage2_3,
        17 => Stages::Stage2_4,
        18 => Stages::Stage3_1,
        19 => Stages::Stage3_2,
        20 => Stages::Stage3_3,
        21 => Stages::Stage3_4,
        22 => Stages::Stage4_1,
        23 => Stages::Stage4_2,
        24 => Stages::Stage4_3,
        25 => Stages::Stage4_4,
        26 => Stages::Stage5_1,
        27 => Stages::Stage5_2,
        28 => Stages::Stage5_3,
        29 => Stages::Stage5_4,
        30 => Stages::Stage6_1,
        31 => Stages::Stage6_2,
        32 => Stages::Stage6_3,
        33 => Stages::Stage6_4,
        34 => Stages::Stage6_5,
        40 => Stages::Stage1_1Past,
        41 => Stages::Stage1_2Past,
        42 => Stages::Stage1_3Past,
        43 => Stages::Stage1_4Past,
        44 => Stages::Stage2_1Past,
        45 => Stages::Stage2_2Past,
        46 => Stages::Stage2_3Past,
        47 => Stages::Stage2_4Past,
        48 => Stages::Stage3_1Past,
        49 => Stages::Stage3_2Past,
        50 => Stages::Stage3_3Past,
        51 => Stages::Stage3_4Past,
        52 => Stages::Stage4_1Past,
        53 => Stages::Stage4_2Past,
        54 => Stages::Stage4_3Past,
        55 => Stages::Stage4_4Past,
        56 => Stages::Stage5_1Past,
        57 => Stages::Stage5_2Past,
        58 => Stages::Stage5_3Past,
        59 => Stages::Stage5_4Past,
        60 => Stages::Stage6_1Past,
        61 => Stages::Stage6_2Past,
        62 => Stages::Stage6_3Past,
        63 => Stages::Stage6_4Past,
        _ => Stages::Unknown,
    }
}

/// The display name of each stage.
pub open spec fn spec_stage_name(s: Stages) -> Seq<char> {
    match s {
        Stages::Title => "Title"@,
        Stages::Movie => "Movie"@,
        Stages::PacVillage => "Pac Village"@,
        Stages::StageSelect => "Stage Select"@,
        Stages::StageSelectPast => "Stage Select Past"@,
        Stages::Stage1_1 => "Stage 1-1"@,
        Stages::Stage1_2 => "Stage 1-2"@,
        Stages::Stage1_3 => "Stage 1-3"@,
        Stages::Stage1_4 => "Stage 1-4"@,
        Stages::Stage2_1 => "Stage 2-1"@,
        Stages::Stage2_2 => "Stage 2-2"@,
        Stages::Stage2_3 => "Stage 2-3"@,
        Stages::Stage2_4 => "Stage 2-4"@,
        Stages::Stage3_1 => "Stage 3-1"@,
        Stages::Stage3_2 => "Stage 3-2"@,
        Stages::Stage3_3 => "Stage 3-3"@,
        Stages::Stage3_4 => "Stage 3-4"@,
        Stages::Stage4_1 => "Stage 4-1"@,
        Stages::Stage4_2 => "Stage 4-2"@,
        Stages::Stage4_3 => "Stage 4-3"@,
        Stages::Stage4_4 => "Stage 4-4"@,
        Stages::Stage5_1 => "Stage 5-1"@,
        Stages::Stage5_2 => "Stage 5-2"@,
        Stages::Stage5_3 => "Stage 5-3"@,
        Stages::Stage5_4 => "Stage 5-4"@,
        Stages::Stage6_1 => "Stage 6-1"@,
        Stages::Stage6_2 => "Stage 6-2"@,
        Stages::Stage6_3 => "Stage 6-3"@,
        Stages::Stage6_4 => "Stage 6-4"@,
        Stages::Stage6_5 => "Stage 6-5"@,
        Stages::Stage1_1Past => "Stage 1-1 Past"@,
        Stages::Stage1_2Past => "Stage 1-2 Past"@,
        Stages::Stage1_3Past => "Stage 1-3 Past"@,
        Stages::Stage1_4Past => "Stage 1-4 Past"@,
        Stages::Stage2_1Past => "Stage 2-1 Past"@,
        Stages::Stage2_2Past => "Stage 2-2 Past"@,
        Stages::Stage2_3Past => "Stage 2-3 Past"@,
        Stages::Stage2_4Past => "Stage 2-4 Past"@,
        Stages::Stage3_1Past => "Stage 3-1 Past"@,
        Stages::Stage3_2Past => "Stage 3-2 Past"@,
        Stages::Stage3_3Past => "Stage 3-3 Past"@,
        Stages::Stage3_4Past => "Stage 3-4 Past"@,
        Stages::Stage4_1Past => "Stage 4-1 Past"@,
        Stages::Stage4_2Past => "Stage 4-2 Past"@,
        Stages::Stage4_3Past => "Stage 4-3 Past"@,
        Stages::Stage4_4Past => "Stage 4-4 Past"@,
        Stages::Stage5_1Past => "Stage 5-1 Past"@,
        Stages::Stage5_2Past => "Stage 5-2 Past"@,
        Stages::Stage5_3Past => "Stage 5-3 Past"@,
        Stages::Stage5_4Past => "Stage 5-4 Past"@,
        Stages::Stage6_1Past => "Stage 6-1 Past"@,
        Stages::Stage6_2Past => "Stage 6-2 Past"@,
        Stages::Stage6_3Past => "Stage 6-3 Past"@,
        Stages::Stage6_4Past => "Stage 6-4 Past"@,
        Stages::Unknown => "Unknown"@,
    }
}

/// Display name of a stage, for the diagnostic variables.
pub fn stage_name(s: Stages) -> (r: &'static str)
    ensures
        r@ == spec_stage_name(s),
{
    match s {
        Stages::Title => "Title",
        Stages::Movie => "Movie",
        Stages::PacVillage => "Pac Village",
        Stages::StageSelect => "Stage Select",
        Stages::StageSelectPast => "Stage Select Past",
        Stages::Stage1_1 => "Stage 1-1",
        Stages::Stage1_2 => "Stage 1-2",
        Stages::Stage1_3 => "Stage 1-3",
        Stages::Stage1_4 => "Stage 1-4",
        Stages::Stage2_1 => "Stage 2-1",
        Stages::Stage2_2 => "Stage 2-2",
        Stages::Stage2_3 => "Stage 2-3",
        Stages::Stage2_4 => "Stage 2-4",
        Stages::Stage3_1 => "Stage 3-1",
        Stages::Stage3_2 => "Stage 3-2",
        Stages::Stage3_3 => "Stage 3-3",
        Stages::Stage3_4 => "Stage 3-4",
        Stages::Stage4_1 => "Stage 4-1",
        Stages::Stage4_2 => "Stage 4-2",
        Stages::Stage4_3 => "Stage 4-3",
        Stages::Stage4_4 => "Stage 4-4",
        Stages::Stage5_1 => "Stage 5-1",
        Stages::Stage5_2 => "Stage 5-2",
        Stages::Stage5_3 => "Stage 5-3",
        Stages::Stage5_4 => "Stage 5-4",
        Stages::Stage6_1 => "Stage 6-1",
        Stages::Stage6_2 => "Stage 6-2",
        Stages::Stage6_3 => "Stage 6-3",
        Stages::Stage6_4 => "Stage 6-4",
        Stages::Stage6_5 => "Stage 6-5",
        Stages::Stage1_1Past => "Stage 1-1 Past",
        Stages::Stage1_2Past => "Stage 1-2 Past",
        Stages::Stage1_3Past => "Stage 1-3 Past",
        Stages::Stage1_4Past => "Stage 1-4 Past",
        Stages::Stage2_1Past => "Stage 2-1 Past",
        Stages::Stage2_2Past => "Stage 2-2 Past",
        Stages::Stage2_3Past => "Stage 2-3 Past",
        Stages::Stage2_4Past => "Stage 2-4 Past",
        Stages::Stage3_1Past => "Stage 3-1 Past",
        Stages::Stage3_2Past => "Stage 3-2 Past",
        Stages::Stage3_3Past => "Stage 3-3 Past",
        Stages::Stage3_4Past => "Stage 3-4 Past",
        Stages::Stage4_1Past => "Stage 4-1 Past",
        Stages::Stage4_2Past => "Stage 4-2 Past",
        Stages::Stage4_3Past => "Stage 4-3 Past",
        Stages::Stage4_4Past => "Stage 4-4 Past",
        Stages::Stage5_1Past => "Stage 5-1 Past",
        Stages::Stage5_2Past => "Stage 5-2 Past",
        Stages::Stage5_3Past => "Stage 5-3 Past",
        Stages::Stage5_4Past => "Stage 5-4 Past",
        Stages::Stage6_1Past => "Stage 6-1 Past",
        Stages::Stage6_2Past => "Stage 6-2 Past",
        Stages::Stage6_3Past => "Stage 6-3 Past",
        Stages::Stage6_4Past => "Stage 6-4 Past",
        Stages::Unknown => "Unknown",
    }
}

/// The player actor's animation/control step.
#[derive(Clone, Copy, PartialEq, Eq, Structural, Debug)]
pub enum PlayerState {
    NoneState,
    Control,
    Damage,
    FallDamage,
    IcePoolDamage,
    SnowBallDamage,
    SinkDamage,
    CutIn,
    CutInGrap,
    Gimmick,
    SpaceJump,
    SpaceJumpOut,
    StageInit,
    StageInitMaze,
    StageInitSJ,
    Dead,
    Goal,
    StageEnd,
    Shooting,
    Racing,
    ReadError,
    OffsetNotReady,
    Unknown,
}

/// The player-step table, with the sentinel for a failed read: the raw step
/// is a small integer; a read that failed upstream is substituted with 100
/// before the table is consulted, and maps to `ReadError`.
pub open spec fn spec_player_state_from_u32(raw: u32) -> PlayerState {
    match raw {
        0 => PlayerState::NoneState,
        1 => PlayerState::Control,
        2 => PlayerState::Damage,
        3 => PlayerState::FallDamage,
        4 => PlayerState::IcePoolDamage,
        5 => PlayerState::SnowBallDamage,
        6 => PlayerState::SinkDamage,
        7 => PlayerState::CutIn,
        8 => PlayerState::CutInGrap,
        9 => PlayerState::Gimmick,
        10 => PlayerState::SpaceJump,
        11 => PlayerState::SpaceJumpOut,
        12 => PlayerState::StageInit,
        13 => PlayerState::StageInitMaze,
        14 => PlayerState::StageInitSJ,
        15 => PlayerState::Dead,
        16 => PlayerState::Goal,
        17 => PlayerState::StageEnd,
        18 => PlayerState::Shooting,
        19 => PlayerState::Racing,
        100 => PlayerState::ReadError,
        _ => PlayerState::Unknown,
    }
}

/// Maps a raw player step to its enum member.
pub fn player_state_from_u32(raw: u32) -> (r: PlayerState)
    ensures
        r == spec_player_state_from_u32(raw),
{
    match raw {
        0 => PlayerState::NoneState,
        1 => PlayerState::Control,
        2 => PlayerState::Damage,
        3 => PlayerState::FallDamage,
        4 => PlayerState::IcePoolDamage,
        5 => PlayerState::SnowBallDamage,
        6 => PlayerState::SinkDamage,
        7 => PlayerState::CutIn,
        8 => PlayerState::CutInGrap,
        9 => PlayerState::Gimmick,
        10 => PlayerState::SpaceJump,
        11 => PlayerState::SpaceJumpOut,
        12 => PlayerState::StageInit,
        13 => PlayerState::StageInitMaze,
        14 => PlayerState::StageInitSJ,
        15 => PlayerState::Dead,
        16 => PlayerState::Goal,
        17 => PlayerState::StageEnd,
        18 => PlayerState::Shooting,
        19 => PlayerState::Racing,
        100 => PlayerState::ReadError,
        _ => PlayerState::Unknown,
    }
}

/// The display name of each player state.
pub open spec fn spec_player_state_name(s: PlayerState) -> Seq<char> {
    match s {
        PlayerState::NoneState => "None"@,
        PlayerState::Control => "Control"@,
        PlayerState::Damage => "Damage"@,
        PlayerState::FallDamage => "Fall Damage"@,
        PlayerState::IcePoolDamage => "Ice Pool Damage"@,
        PlayerState::SnowBallDamage => "Snow Ball Damage"@,
        PlayerState::SinkDamage => "Sink Damage"@,
        PlayerState::CutIn => "Cut In"@,
        PlayerState::CutInGrap => "Cut In Grap"@,
        PlayerState::Gimmick => "Gimmick"@,
        PlayerState::SpaceJump => "Space Jump"@,
        PlayerState::SpaceJumpOut => "Space Jump Out"@,
        PlayerState::StageInit => "Stage Init"@,
        PlayerState::StageInitMaze => "Stage Init Maze"@,
        PlayerState::StageInitSJ => "Stage Init SJ"@,
        PlayerState::Dead => "Dead"@,
        PlayerState::Goal => "Goal"@,
        PlayerState::StageEnd => "Stage End"@,
        PlayerState::Shooting => "Shooting"@,
        PlayerState::Racing => "Racing"@,
        PlayerState::ReadError => "ASR Memory Read Error"@,
        PlayerState::OffsetNotReady => "ASR Offset Not Ready"@,
        PlayerState::Unknown => "UNKNOWN"@,
    }
}

/// Display name of a player state, for the diagnostic variables.
pub fn player_state_to_string(s: PlayerState) -> (r: &'static str)
    ensures
        r@ == spec_player_state_name(s),
{
    match s {
        PlayerState::NoneState => "None",
        PlayerState::Control => "Control",
        PlayerState::Damage => "Damage",
        PlayerState::FallDamage => "Fall Damage",
        PlayerState::IcePoolDamage => "Ice Pool Damage",
        PlayerState::SnowBallDamage => "Snow Ball Damage",
        PlayerState::SinkDamage => "Sink Damage",
        PlayerState::CutIn => "Cut In",
        PlayerState::CutInGrap => "Cut In Grap",
        PlayerState::Gimmick => "Gimmick",
        PlayerState::SpaceJump => "Space Jump",
        PlayerState::SpaceJumpOut => "Space Jump Out",
        PlayerState::StageInit => "Stage Init",
        PlayerState::StageInitMaze => "Stage Init Maze",
        PlayerState::StageInitSJ => "Stage Init SJ",
        PlayerState::Dead => "Dead",
        PlayerState::Goal => "Goal",
        PlayerState::StageEnd => "Stage End",
        PlayerState::Shooting => "Shooting",
        PlayerState::Racing => "Racing",
        PlayerState::ReadError => "ASR Memory Read Error",
        PlayerState::OffsetNotReady => "ASR Offset Not Ready",
        PlayerState::Unknown => "UNKNOWN",
    }
}

/// The stage manager's step within one loaded level.
#[derive(Clone, Copy, PartialEq, Eq, Structural, Debug)]
pub enum StageState {
    NoneState,
    InitOnFade,
    InitEndFade,
    Playing,
    Pause,
    DebugPause,
    Maze,
    PacDead,
    GameOver,
    Goal,
    Exit,
    Unknown,
}

/// The stage-manager-step table.
pub open spec fn spec_stage_state_from_u32(raw: u32) -> StageState {
    match raw {
        0 => StageState::NoneState,
        1 => StageState::InitOnFade,
        2 => StageState::InitEndFade,
        3 => StageState::Playing,
        4 => StageState::Pause,
        5 => StageState::DebugPause,
        6 => StageState::Maze,
        7 => StageState::PacDead,
        8 => StageState::GameOver,
        9 => StageState::Goal,
        10 => StageState::Exit,
        _ => StageState::Unknown,
    }
}

/// Maps a raw stage-manager step to its enum member.
pub fn get_stage_manager_state(raw: u32) -> (r: StageState)
    ensures
        r == spec_stage_state_from_u32(raw),
{
    match raw {
        0 => StageState::NoneState,
        1 => StageState::InitOnFade,
        2 => StageState::InitEndFade,
        3 => StageState::Playing,
        4 => StageState::Pause,
        5 => StageState::DebugPause,
        6 => StageState::Maze,
        7 => StageState::PacDead,
        8 => StageState::GameOver,
        9 => StageState::Goal,
        10 => StageState::Exit,
        _ => StageState::Unknown,
    }
}

/// The display name of each stage-manager state.
pub open spec fn spec_stage_state_name(s: StageState) -> Seq<char> {
    match s {
        StageState::NoneState => "None"@,
        StageState::InitOnFade => "Init On Fade"@,
        StageState::InitEndFade => "Init End Fade"@,
        StageState::Playing => "Playing"@,
        StageState::Pause => "Pause"@,
        StageState::DebugPause => "Debug Pause"@,
        StageState::Maze => "Maze"@,
        StageState::PacDead => "Pac Dead"@,
        StageState::GameOver => "Game Over"@,
        StageState::Goal => "Goal"@,
        StageState::Exit => "Exit"@,
        StageState::Unknown => "Unknown"@,
    }
}

/// Display name of a stage-manager state, for the diagnostic variables.
pub fn stage_state_to_string(s: StageState) -> (r: &'static str)
    ensures
        r@ == spec_stage_state_name(s),
{
    match s {
        StageState::NoneState => "None",
        StageState::InitOnFade => "Init On Fade",
        StageState::InitEndFade => "Init End Fade",
        StageState::Playing => "Playing",
        StageState::Pause => "Pause",
        StageState::DebugPause => "Debug Pause",
        StageState::Maze => "Maze",
        StageState::PacDead => "Pac Dead",
        StageState::GameOver => "Game Over",
        StageState::Goal => "Goal",
        StageState::Exit => "Exit",
        StageState::Unknown => "Unknown",
    }
}

/// The time-trial manager's step.
#[derive(Clone, Copy, PartialEq, Eq, Structural, Debug)]
pub enum TimeTrialState {
    NoneState,
    ReadyInit,
    ReadyWait,
    TA,
    Pause,
    End,
    Unknown,
}

/// The time-trial-step table.
pub open spec fn spec_time_trial_state_from_u32(raw: u32) -> TimeTrialState {
    match raw {
        0 => TimeTrialState::NoneState,
        1 => TimeTrialState::ReadyInit,
        2 => TimeTrialState::ReadyWait,
        3 => TimeTrialState::TA,
        4 => TimeTrialState::Pause,
        5 => TimeTrialState::End,
        _ => TimeTrialState::Unknown,
    }
}

/// Maps a raw time-trial step to its enum member.
pub fn time_trial_state_int_to_enum(raw: u32) -> (r: TimeTrialState)
    ensures
        r == spec_time_trial_state_from_u32(raw),
{
    match raw {
        0 => TimeTrialState::NoneState,
        1 => TimeTrialState::ReadyInit,
        2 => TimeTrialState::ReadyWait,
        3 => TimeTrialState::TA,
        4 => TimeTrialState::Pause,
        5 => TimeTrialState::End,
        _ => TimeTrialState::Unknown,
    }
}

/// The display name of each time-trial state.
pub open spec fn spec_time_trial_state_name(s: TimeTrialState) -> Seq<char> {
    match s {
        TimeTrialState::NoneState => "None"@,
        TimeTrialState::ReadyInit => "Ready_Init"@,
        TimeTrialState::ReadyWait => "Ready_Wait"@,
        TimeTrialState::TA => "TA"@,
        TimeTrialState::Pause => "Pause"@,
        TimeTrialState::End => "End"@,
        TimeTrialState::Unknown => "Unknown"@,
    }
}

/// Display name of a time-trial state, for the diagnostic variables.
pub fn time_trial_state_to_string(s: TimeTrialState) -> (r: &'static str)
    ensures
        r@ == spec_time_trial_state_name(s),
{
    match s {
        TimeTrialState::NoneState => "None",
        TimeTrialState::ReadyInit => "Ready_Init",
        TimeTrialState::ReadyWait => "Ready_Wait",
        TimeTrialState::TA => "TA",
        TimeTrialState::Pause => "Pause",
        TimeTrialState::End => "End",
        TimeTrialState::Unknown => "Unknown",
    }
}

} // verus!
