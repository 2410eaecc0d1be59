use repac_splitter::commands::Diag;
use repac_splitter::mem_table::MemTable;
use repac_splitter::memory::get_boss_state;
use repac_splitter::memory::update_watchers;
use repac_splitter::memory::Memory;
use repac_splitter::metadata::ClassId;
use repac_splitter::metadata::ClassMeta;
use repac_splitter::metadata::FieldId;
use repac_splitter::metadata::Metadata;
use repac_splitter::observation::Watchers;
use repac_splitter::resolve::resolve;
use repac_splitter::resolve::PointerPath;
use repac_splitter::settings::Settings;
use repac_splitter::states::StageState;
use repac_splitter::states::Stages;
use repac_splitter::states::TimerMode;

#[test]
fn a_later_word_shadows_an_earlier_one() {
    let mut mem = MemTable::new();
    mem.insert(0x10, 1);
    mem.insert(0x10, 2);
    assert_eq!(mem.read_u64(0x10), Some(2));
    assert_eq!(mem.read_u64(0x18), None);
}

#[test]
fn narrow_reads_take_the_low_bits() {
    let mut mem = MemTable::new();
    mem.insert(0x10, 0xAAAA_BBBB_0000_0003);
    assert_eq!(mem.read_u32(0x10), Some(3));
    assert!(mem.read_bool(0x10).unwrap());
    mem.insert(0x18, 0xFFFF_FFFF);
    assert_eq!(mem.read_i32(0x18), Some(-1));
    mem.insert(0x20, 0x100);
    assert!(!mem.read_bool(0x20).unwrap());
}

#[test]
fn a_later_metadata_row_shadows_an_earlier_one() {
    let meta = Metadata {
        classes: vec![
            ClassMeta {
                class: ClassId::SceneManager,
                statics: 0x1000,
                fields: vec![(FieldId::SInstance, 0x10), (FieldId::ECurrentScene, 0x20)],
            },
            ClassMeta {
                class: ClassId::SceneManager,
                statics: 0x9000,
                fields: vec![(FieldId::SInstance, 0x10), (FieldId::ECurrentScene, 0x20)],
            },
        ],
    };
    let path = PointerPath {
        class: ClassId::SceneManager,
        fields: vec![FieldId::SInstance, FieldId::ECurrentScene],
    };
    let mut mem = MemTable::new();
    mem.insert(0x9010, 0x2000);
    assert_eq!(resolve(&path, &meta, &mem), Some(0x2020));
}

#[test]
fn addresses_wrap_around_the_address_space() {
    let meta = Metadata {
        classes: vec![ClassMeta {
            class: ClassId::SceneManager,
            statics: u64::MAX,
            fields: vec![(FieldId::SInstance, 0x11), (FieldId::ECurrentScene, 0x20)],
        }],
    };
    let path = PointerPath {
        class: ClassId::SceneManager,
        fields: vec![FieldId::SInstance, FieldId::ECurrentScene],
    };
    let mut mem = MemTable::new();
    mem.insert(0x10, 0x2000);
    assert_eq!(resolve(&path, &meta, &mem), Some(0x2020));
}

#[test]
fn off_a_boss_level_the_phase_reads_as_zero() {
    let meta = Metadata { classes: Vec::new() };
    let mem = MemTable::new();
    let mut memory = Memory::init(&meta);
    assert_eq!(get_boss_state(&mem, &meta, &mut memory, Stages::Stage1_1), 0);
    // No resolution was attempted, so the deliberate cache stays empty.
    assert!(memory.boss_state.chain.is_none());
}

#[test]
fn a_level_change_re_derives_the_per_level_paths() {
    // One class table with the stage manager known; the boss class absent.
    let meta = Metadata {
        classes: vec![
            ClassMeta {
                class: ClassId::SceneManager,
                statics: 0x1000,
                fields: vec![(FieldId::SInstance, 0x10), (FieldId::ECurrentScene, 0x20)],
            },
            ClassMeta {
                class: ClassId::StageManager,
                statics: 0x4000,
                fields: vec![(FieldId::SInstance, 0x10), (FieldId::Step, 0x30)],
            },
        ],
    };
    let mut mem = MemTable::new();
    mem.insert(0x1010, 0x2000);
    mem.insert(0x2020, 10); // scene code: the first stage
    mem.insert(0x4010, 0x5000);
    mem.insert(0x5030, 4); // stage-manager step: paused
    let mut s = Settings::default();
    s.timer_mode = TimerMode::IL;
    let mut memory = Memory::init(&meta);
    let mut watchers = Watchers::new();
    let diags = update_watchers(&meta, &mem, &s, &mut memory, &mut watchers, None);
    // The first observed level counts as a change, so the cache was first
    // invalidated and then re-derived by the stage read.
    assert!(memory.stage_manager_state.chain.is_some());
    assert_eq!(watchers.stage_state.obs().current, StageState::Pause);
    assert!(diags.contains(&Diag::StageStep(StageState::Pause)));
    assert!(diags.contains(&Diag::Level(Stages::Stage1_1)));
}
