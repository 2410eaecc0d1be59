use repac_splitter::commands::Diag;
use repac_splitter::commands::TimerCommand;
use repac_splitter::mem_table::MemTable;
use repac_splitter::memory::update_watchers;
use repac_splitter::memory::Memory;
use repac_splitter::metadata::ClassId;
use repac_splitter::metadata::ClassMeta;
use repac_splitter::metadata::FieldId;
use repac_splitter::metadata::Metadata;
use repac_splitter::modes::il_tick;
use repac_splitter::modes::RunState;
use repac_splitter::observation::Watchers;
use repac_splitter::settings::Settings;
use repac_splitter::states::PlayerState;
use repac_splitter::states::TimerMode;

/// A metadata view where the player manager, the player class and the
/// trial manager are known.
fn full_meta() -> Metadata {
    Metadata {
        classes: vec![
            ClassMeta {
                class: ClassId::PlayerManager,
                statics: 0x7000,
                fields: vec![(FieldId::SInstance, 0x10), (FieldId::Players, 0x18)],
            },
            ClassMeta {
                class: ClassId::PlayerPacman,
                statics: 0,
                fields: vec![(FieldId::Step, 0x40)],
            },
            ClassMeta {
                class: ClassId::TimeAttackManager,
                statics: 0x1000,
                fields: vec![(FieldId::SInstance, 0x10), (FieldId::BonusTimeList, 0x18)],
            },
            ClassMeta {
                class: ClassId::SystemUiRoot,
                statics: 0x1000,
                fields: vec![(FieldId::SInstance, 0x30), (FieldId::SLoadingUi, 0x38)],
            },
        ],
    }
}

/// A memory view where the first player's step reads as the goal state.
fn player_mem() -> MemTable {
    let mut mem = MemTable::new();
    mem.insert(0x7010, 0x8000); // the player manager singleton
    mem.insert(0x8018, 0x9000); // the players array
    mem.insert(0x9020, 0xA000); // the first player object
    mem.insert(0xA040, 16); // its step: the goal state
    mem
}

#[test]
fn a_failed_player_read_shifts_the_last_known_good_value() {
    let meta = full_meta();
    let s = Settings::default();
    let mut memory = Memory::init(&meta);
    let mut watchers = Watchers::new();

    let diags = update_watchers(&meta, &player_mem(), &s, &mut memory, &mut watchers, None);
    assert_eq!(watchers.player_state.obs().current, PlayerState::Goal);
    assert!(diags.contains(&Diag::Player(PlayerState::Goal)));

    // Next tick the player array is unreadable: the pair still shifts, with
    // the last-known-good value, so the goal edge does not survive.
    let diags = update_watchers(&meta, &MemTable::new(), &s, &mut memory, &mut watchers, None);
    let obs = watchers.player_state.obs();
    assert_eq!(obs.previous, PlayerState::Goal);
    assert_eq!(obs.current, PlayerState::Goal);
    assert!(!diags.iter().any(|d| matches!(d, Diag::Player(_))));
}

#[test]
fn a_goal_edge_does_not_refire_off_a_failed_tick() {
    let mut w = Watchers::new();
    w.player_state.update(PlayerState::Control);
    w.player_state.update(PlayerState::Goal);
    let mut s = Settings::default();
    s.timer_mode = TimerMode::IL;
    let mut state = RunState::new();
    // The goal transition flushes the run.
    let cmds = il_tick(&w, &s, &mut state);
    assert_eq!(cmds.len(), 102);
    assert_eq!(cmds[101], TimerCommand::Split);

    // The next tick's player read fails: the observation shifts with the
    // last-known-good value, and the flush must not fire again.
    w.player_state.refresh_last_known();
    let cmds = il_tick(&w, &s, &mut state);
    assert_eq!(cmds, vec![TimerCommand::ResumeGameTime]);
}

#[test]
fn a_failed_bonus_list_keeps_the_last_known_sum() {
    let meta = full_meta();
    let mut mem = MemTable::new();
    mem.insert(0x1010, 0x2000); // the trial manager singleton
    mem.insert(0x2018, 0x300); // the bonus list object
    mem.insert(0x310, 0x400); // its backing array
    mem.insert(0x318, 1); // one element
    mem.insert(0x420, 7);
    let mut s = Settings::default();
    s.timer_mode = TimerMode::TimeTrial;
    let mut memory = Memory::init(&meta);
    let mut watchers = Watchers::new();

    update_watchers(&meta, &mem, &s, &mut memory, &mut watchers, None);
    assert_eq!(watchers.time_trial_bonus_time.obs().current, 7);

    update_watchers(&meta, &MemTable::new(), &s, &mut memory, &mut watchers, None);
    let obs = watchers.time_trial_bonus_time.obs();
    assert_eq!(obs.previous, 7);
    assert_eq!(obs.current, 7);
}

#[test]
fn a_failed_loading_screen_keeps_the_last_known_progress() {
    let meta = full_meta();
    let mut mem = MemTable::new();
    mem.insert(0x1030, 0x2000); // the system-ui-root singleton
    mem.insert(0x2038, 0x500); // the loading-screen object
    mem.insert(0x54C, 0x3F00_0000); // a progress of one half
    let s = Settings::default();
    let mut memory = Memory::init(&meta);
    let mut watchers = Watchers::new();

    update_watchers(&meta, &mem, &s, &mut memory, &mut watchers, None);
    assert_eq!(watchers.load_ui_progress_bits.obs().current, 0x3F00_0000);

    update_watchers(&meta, &MemTable::new(), &s, &mut memory, &mut watchers, None);
    let obs = watchers.load_ui_progress_bits.obs();
    assert_eq!(obs.previous, 0x3F00_0000);
    assert_eq!(obs.current, 0x3F00_0000);
}
