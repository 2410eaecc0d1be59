use repac_splitter::mem_table::MemTable;
use repac_splitter::metadata::ClassId;
use repac_splitter::metadata::ClassMeta;
use repac_splitter::metadata::FieldId;
use repac_splitter::metadata::Metadata;
use repac_splitter::resolve::PathCache;
use repac_splitter::resolve::PointerPath;
use repac_splitter::resolve::chase;
use repac_splitter::resolve::derive_offsets;
use repac_splitter::resolve::next_missing;
use repac_splitter::resolve::resolve;

fn scene_manager_meta(statics: u64) -> Metadata {
    Metadata {
        classes: vec![ClassMeta {
            class: ClassId::SceneManager,
            statics,
            fields: vec![(FieldId::SInstance, 0x10), (FieldId::ECurrentScene, 0x20)],
        }],
    }
}

fn level_path() -> PointerPath {
    PointerPath {
        class: ClassId::SceneManager,
        fields: vec![FieldId::SInstance, FieldId::ECurrentScene],
    }
}

#[test]
fn a_known_path_resolves_to_its_final_address() {
    let meta = scene_manager_meta(0x1000);
    let mut mem = MemTable::new();
    mem.insert(0x1010, 0x2000); // the singleton instance pointer
    assert_eq!(resolve(&level_path(), &meta, &mem), Some(0x2020));
}

#[test]
fn the_two_stages_compose() {
    let meta = scene_manager_meta(0x1000);
    let chain = derive_offsets(&level_path(), &meta).expect("metadata stage");
    assert_eq!(chain.statics, 0x1000);
    assert_eq!(chain.offsets, vec![0x10, 0x20]);
    let mut mem = MemTable::new();
    mem.insert(0x1010, 0x2000);
    assert_eq!(chase(&chain, &mem), Some(0x2020));
}

#[test]
fn an_unknown_class_leaves_the_path_unresolved() {
    let meta = Metadata { classes: Vec::new() };
    let mem = MemTable::new();
    assert_eq!(resolve(&level_path(), &meta, &mem), None);
}

#[test]
fn an_unknown_field_leaves_the_path_unresolved() {
    let meta = Metadata {
        classes: vec![ClassMeta {
            class: ClassId::SceneManager,
            statics: 0x1000,
            fields: vec![(FieldId::SInstance, 0x10)],
        }],
    };
    let mut mem = MemTable::new();
    mem.insert(0x1010, 0x2000);
    assert_eq!(resolve(&level_path(), &meta, &mem), None);
}

#[test]
fn a_null_pointer_leaves_the_path_unresolved() {
    let meta = scene_manager_meta(0x1000);
    let mut mem = MemTable::new();
    mem.insert(0x1010, 0);
    assert_eq!(resolve(&level_path(), &meta, &mem), None);
}

#[test]
fn an_unreadable_word_leaves_the_path_unresolved() {
    let meta = scene_manager_meta(0x1000);
    let mem = MemTable::new();
    assert_eq!(resolve(&level_path(), &meta, &mem), None);
}

#[test]
fn next_missing_walks_the_reads_in_order() {
    let meta = scene_manager_meta(0x1000);
    let mut mem = MemTable::new();
    assert_eq!(next_missing(&level_path(), &meta, &mem), Some(0x1010));
    mem.insert(0x1010, 0x2000);
    assert_eq!(next_missing(&level_path(), &meta, &mem), Some(0x2020));
    mem.insert(0x2020, 3);
    assert_eq!(next_missing(&level_path(), &meta, &mem), None);
    assert_eq!(resolve(&level_path(), &meta, &mem), Some(0x2020));
}

#[test]
fn the_cached_path_keeps_its_offsets_until_invalidated() {
    let meta = scene_manager_meta(0x1000);
    let mut mem = MemTable::new();
    mem.insert(0x1010, 0x2000);
    let mut cache = PathCache::new(level_path());
    assert_eq!(cache.resolve_cached(&meta, &mem), Some(0x2020));
    // A new layout moves the static base; the cache deliberately keeps the
    // old offsets until its explicit trigger fires.
    let moved = scene_manager_meta(0x5000);
    assert_eq!(cache.resolve_cached(&moved, &mem), Some(0x2020));
    cache.invalidate();
    let mut mem2 = MemTable::new();
    mem2.insert(0x5010, 0x6000);
    assert_eq!(cache.resolve_cached(&moved, &mem2), Some(0x6020));
}
