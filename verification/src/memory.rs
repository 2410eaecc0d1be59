//! The per-attachment memory layout and the per-tick observation refresh.
//!
//! [`Memory`] holds the symbolic pointer paths to every tracked quantity,
//! the two deliberately cached paths that anchor in per-level object
//! instances, and the cached field offset of the player object's step.
//! [`update_watchers`] is the driver's read-observe step: it resolves each
//! path against this tick's metadata and memory view, substitutes the
//! documented default wherever resolution fails, updates the watchers, and
//! returns the tick's diagnostic values.
use vstd::prelude::*;

use crate::commands::Diag;
use crate::mem_table::MemTable;
use crate::metadata::ClassId;
use crate::metadata::FieldId;
use crate::metadata::Metadata;
use crate::observation::Watchers;
use crate::resolve::PathCache;
use crate::resolve::PointerPath;
use crate::resolve::cache_evolved;
use crate::resolve::chain_matches;
use crate::resolve::spec_cached_resolve;
use crate::resolve::spec_derive_ok;
use crate::resolve::spec_resolve;
use crate::resolve::spec_wrap_add;
use crate::resolve::resolve;
use crate::resolve::wrap_add_u64;
use crate::settings::Settings;
use crate::states::PlayerState;
use crate::states::StageState;
use crate::states::Stages;
use crate::states::TimeTrialState;
use crate::states::TimerMode;
use crate::states::spec_player_state_from_u32;
use crate::states::spec_stage_from_u32;
use crate::states::spec_stage_state_from_u32;
use crate::states::spec_time_trial_state_from_u32;
use crate::states::get_stage_manager_state;
use crate::states::player_state_from_u32;
use crate::states::stage_from_u32;
use crate::states::time_trial_state_int_to_enum;

verus! {

/// Offset of the backing-array pointer inside a list object.
pub const LIST_ITEMS_OFFSET: u64 = 0x10;

/// Offset of the element count inside a list object.
pub const LIST_LEN_OFFSET: u64 = 0x18;

/// Offset of the first element inside a backing array object.
pub const LIST_DATA_OFFSET: u64 = 0x20;

/// Stride between the 32-bit elements of a backing array.
pub const LIST_ELEMENT_STRIDE: u64 = 0x4;

/// Offset of the first player inside the player-manager array object.
pub const PLAYERS_FIRST_OFFSET: u64 = 0x20;

/// Offset of the animation progress inside the loading-screen object.
pub const LOADING_UI_PROGRESS_OFFSET: u64 = 0x4C;

/// The raw player step substituted when the step itself cannot be read.
pub const PLAYER_STEP_READ_ERROR: u32 = 100;

/// The symbolic pointer paths to every tracked quantity, set up once per
/// process attachment.
#[derive(Clone, Debug)]
pub struct Memory {
    pub is_loading: PointerPath,
    pub loadscreen_ui: PointerPath,
    pub level_id: PointerPath,
    pub checkpoint: PointerPath,
    pub time_trial_igt: PointerPath,
    pub time_trial_state: PointerPath,
    pub time_trial_bonus_list: PointerPath,
    pub spooky_qte_success: PointerPath,
    pub players_array: PointerPath,
    /// Every boss inherits its phase field from one base class, but the
    /// offsets differ per level, so this path's offsets are cached and
    /// re-derived only on a level change.
    pub boss_state: PathCache,
    /// Anchored in a per-level manager instance; cached like the boss
    /// path.
    pub stage_manager_state: PathCache,
    /// The byte offset of the player object's step field, looked up from
    /// metadata once and retried whenever it is still unknown.
    pub player_state_offset: Option<u64>,
}

/// Whether every path of `m` names its documented anchor class and field
/// chain.
pub open spec fn spec_paths_wf(m: Memory) -> bool {
    &&& m.is_loading.class == ClassId::SceneManager
    &&& m.is_loading.fields@ == seq![FieldId::SInstance, FieldId::BProcessing]
    &&& m.loadscreen_ui.class == ClassId::SystemUiRoot
    &&& m.loadscreen_ui.fields@ == seq![FieldId::SInstance, FieldId::SLoadingUi]
    &&& m.level_id.class == ClassId::SceneManager
    &&& m.level_id.fields@ == seq![FieldId::SInstance, FieldId::ECurrentScene]
    &&& m.checkpoint.class == ClassId::StageStateManager
    &&& m.checkpoint.fields@ == seq![FieldId::SInstance, FieldId::CheckPointPriority]
    &&& m.time_trial_igt.class == ClassId::TimeAttackManager
    &&& m.time_trial_igt.fields@ == seq![FieldId::SInstance, FieldId::Time]
    &&& m.time_trial_state.class == ClassId::TimeAttackManager
    &&& m.time_trial_state.fields@ == seq![FieldId::SInstance, FieldId::Step]
    &&& m.time_trial_bonus_list.class == ClassId::TimeAttackManager
    &&& m.time_trial_bonus_list.fields@ == seq![FieldId::SInstance, FieldId::BonusTimeList]
    &&& m.spooky_qte_success.class == ClassId::BossSpooky
    &&& m.spooky_qte_success.fields@ == seq![FieldId::SInstance, FieldId::QteSuccess]
    &&& m.players_array.class == ClassId::PlayerManager
    &&& m.players_array.fields@ == seq![FieldId::SInstance, FieldId::Players]
    &&& m.boss_state.path.class == ClassId::BossBase
    &&& m.boss_state.path.fields@ == seq![FieldId::SInstance, FieldId::State]
    &&& m.stage_manager_state.path.class == ClassId::StageManager
    &&& m.stage_manager_state.path.fields@ == seq![FieldId::SInstance, FieldId::Step]
}

impl Memory {
    /// Sets up the symbolic paths for one process attachment and looks up
    /// the player-step offset from the metadata at hand.
    pub fn init(meta: &Metadata) -> (r: Memory)
        ensures
            spec_paths_wf(r),
            r.boss_state.chain is None,
            r.stage_manager_state.chain is None,
            r.player_state_offset == meta.spec_field_offset(ClassId::PlayerPacman, FieldId::Step),
    {
        let player_state_offset = meta.field_offset(ClassId::PlayerPacman, FieldId::Step);
        let r = Memory {
            is_loading: PointerPath {
                class: ClassId::SceneManager,
                fields: vec![FieldId::SInstance, FieldId::BProcessing],
            },
            loadscreen_ui: PointerPath {
                class: ClassId::SystemUiRoot,
                fields: vec![FieldId::SInstance, FieldId::SLoadingUi],
            },
            level_id: PointerPath {
                class: ClassId::SceneManager,
                fields: vec![FieldId::SInstance, FieldId::ECurrentScene],
            },
            checkpoint: PointerPath {
                class: ClassId::StageStateManager,
                fields: vec![FieldId::SInstance, FieldId::CheckPointPriority],
            },
            time_trial_igt: PointerPath {
                class: ClassId::TimeAttackManager,
                fields: vec![FieldId::SInstance, FieldId::Time],
            },
            time_trial_state: PointerPath {
                class: ClassId::TimeAttackManager,
                fields: vec![FieldId::SInstance, FieldId::Step],
            },
            time_trial_bonus_list: PointerPath {
                class: ClassId::TimeAttackManager,
                fields: vec![FieldId::SInstance, FieldId::BonusTimeList],
            },
            spooky_qte_success: PointerPath {
                class: ClassId::BossSpooky,
                fields: vec![FieldId::SInstance, FieldId::QteSuccess],
            },
            players_array: PointerPath {
                class: ClassId::PlayerManager,
                fields: vec![FieldId::SInstance, FieldId::Players],
            },
            boss_state: PathCache::new(
                PointerPath { class: ClassId::BossBase, fields: vec![FieldId::SInstance, FieldId::State] },
            ),
            stage_manager_state: PathCache::new(
                PointerPath { class: ClassId::StageManager, fields: vec![FieldId::SInstance, FieldId::Step] },
            ),
            player_state_offset,
        };
        r
    }

    /// The explicit invalidation trigger for the per-level paths: drops
    /// their cached offsets so the next resolution re-derives them, as a
    /// level change moves them to new per-level instances.
    pub fn refresh_pointers(&mut self)
        ensures
            final(self).boss_state.path == old(self).boss_state.path,
            final(self).boss_state.chain is None,
            final(self).stage_manager_state.path == old(self).stage_manager_state.path,
            final(self).stage_manager_state.chain is None,
            final(self).is_loading == old(self).is_loading,
            final(self).loadscreen_ui == old(self).loadscreen_ui,
            final(self).level_id == old(self).level_id,
            final(self).checkpoint == old(self).checkpoint,
            final(self).time_trial_igt == old(self).time_trial_igt,
            final(self).time_trial_state == old(self).time_trial_state,
            final(self).time_trial_bonus_list == old(self).time_trial_bonus_list,
            final(self).spooky_qte_success == old(self).spooky_qte_success,
            final(self).players_array == old(self).players_array,
            final(self).player_state_offset == old(self).player_state_offset,
    {
        self.boss_state.invalidate();
        self.stage_manager_state.invalidate();
    }

    /// Retries the metadata lookup of the player-step offset.
    pub fn refresh_player_state_offset(&mut self, meta: &Metadata)
        ensures
            final(self).player_state_offset == meta.spec_field_offset(
                ClassId::PlayerPacman,
                FieldId::Step,
            ),
            *final(self) == (Memory {
                player_state_offset: final(self).player_state_offset,
                ..*old(self)
            }),
    {
        self.player_state_offset = meta.field_offset(ClassId::PlayerPacman, FieldId::Step);
    }
}

/// The value a path dereferences to as a 32-bit word, if it resolves and
/// its final address is readable.
pub open spec fn spec_deref_u32(path: PointerPath, meta: Metadata, mem: MemTable) -> Option<u32> {
    match spec_resolve(path, meta, mem) {
        Some(a) => mem.spec_get_u32(a),
        None => None,
    }
}

/// The value a path dereferences to as a 64-bit word.
pub open spec fn spec_deref_u64(path: PointerPath, meta: Metadata, mem: MemTable) -> Option<u64> {
    match spec_resolve(path, meta, mem) {
        Some(a) => mem.spec_get(a),
        None => None,
    }
}

/// The value a path dereferences to as a signed 32-bit word.
pub open spec fn spec_deref_i32(path: PointerPath, meta: Metadata, mem: MemTable) -> Option<i32> {
    match spec_resolve(path, meta, mem) {
        Some(a) => mem.spec_get_i32(a),
        None => None,
    }
}

/// The value a path dereferences to as a boolean byte.
pub open spec fn spec_deref_bool(path: PointerPath, meta: Metadata, mem: MemTable) -> Option<
    bool,
> {
    match spec_resolve(path, meta, mem) {
        Some(a) => mem.spec_get_bool(a),
        None => None,
    }
}

/// Resolves a path and reads its value as a 32-bit word.
pub fn deref_u32(path: &PointerPath, meta: &Metadata, mem: &MemTable) -> (r: Option<u32>)
    ensures
        r == spec_deref_u32(*path, *meta, *mem),
{
    match resolve(path, meta, mem) {
        Some(a) => mem.read_u32(a),
        None => None,
    }
}

/// Resolves a path and reads its value as a 64-bit word.
pub fn deref_u64(path: &PointerPath, meta: &Metadata, mem: &MemTable) -> (r: Option<u64>)
    ensures
        r == spec_deref_u64(*path, *meta, *mem),
{
    match resolve(path, meta, mem) {
        Some(a) => mem.read_u64(a),
        None => None,
    }
}

/// Resolves a path and reads its value as a signed 32-bit word.
pub fn deref_i32(path: &PointerPath, meta: &Metadata, mem: &MemTable) -> (r: Option<i32>)
    ensures
        r == spec_deref_i32(*path, *meta, *mem),
{
    match resolve(path, meta, mem) {
        Some(a) => mem.read_i32(a),
        None => None,
    }
}

/// Resolves a path and reads its value as a boolean byte.
pub fn deref_bool(path: &PointerPath, meta: &Metadata, mem: &MemTable) -> (r: Option<bool>)
    ensures
        r == spec_deref_bool(*path, *meta, *mem),
{
    match resolve(path, meta, mem) {
        Some(a) => mem.read_bool(a),
        None => None,
    }
}

/// The address of element `i` of a backing array at `items`.
pub open spec fn spec_bonus_item_addr(items: u64, i: int) -> u64 {
    spec_wrap_add(items, (LIST_DATA_OFFSET + i * LIST_ELEMENT_STRIDE) as u64)
}

/// Element `i` of the bonus list's backing array, zero when unreadable.
pub open spec fn spec_bonus_elem(mem: MemTable, items: u64, i: int) -> int {
    match mem.spec_get_u32(spec_bonus_item_addr(items, i)) {
        Some(v) => v as int,
        None => 0,
    }
}

/// The sum of the first `n` elements of the backing array at `items`,
/// unreadable elements contributing zero.
pub open spec fn spec_bonus_sum(mem: MemTable, items: u64, n: int) -> int
    decreases n,
{
    if n <= 0 {
        0
    } else {
        spec_bonus_sum(mem, items, n - 1) + spec_bonus_elem(mem, items, n - 1)
    }
}

/// The sum of the first `n` elements lies within `n` unsigned 32-bit
/// maxima.
proof fn lemma_bonus_sum_bound(mem: MemTable, items: u64, n: int)
    requires
        n >= 0,
    ensures
        0 <= spec_bonus_sum(mem, items, n) <= n * 0xFFFF_FFFF,
    decreases n,
{
    if n > 0 {
        lemma_bonus_sum_bound(mem, items, n - 1);
    }
}

/// What the dynamic list reader answers for the list object at
/// `bonus_list_pointer`: the element count and backing-array pointer are
/// read at their fixed sub-offsets, and the elements summed; an unreadable
/// backing-array pointer yields zero, and each unreadable element
/// contributes zero.
pub open spec fn spec_time_bonus(mem: MemTable, bonus_list_pointer: u64) -> int {
    match mem.spec_get(spec_wrap_add(bonus_list_pointer, LIST_ITEMS_OFFSET)) {
        Some(items) => {
            let n = match mem.spec_get_u32(spec_wrap_add(bonus_list_pointer, LIST_LEN_OFFSET)) {
                Some(n) => n as int,
                None => 0,
            };
            spec_bonus_sum(mem, items, n)
        },
        None => 0,
    }
}

/// The dynamic list reader: sums the per-segment bonus-time entries of the
/// length-prefixed list object at `bonus_list_pointer`. The length is
/// re-read on every access and no index at or past it is dereferenced;
/// any single unreadable element contributes zero and processing goes on,
/// partial data beating an aborted tick.
pub fn calculate_time_bonus(mem: &MemTable, bonus_list_pointer: u64) -> (r: u64)
    ensures
        r == spec_time_bonus(*mem, bonus_list_pointer),
{
    let items = match mem.read_u64(wrap_add_u64(bonus_list_pointer, LIST_ITEMS_OFFSET)) {
        Some(items) => items,
        None => {
            return 0;
        },
    };
    let n = match mem.read_u32(wrap_add_u64(bonus_list_pointer, LIST_LEN_OFFSET)) {
        Some(n) => n,
        None => 0,
    };
    let mut total: u64 = 0;
    let mut i: u32 = 0;
    while i < n
        invariant
            i <= n,
            total == spec_bonus_sum(*mem, items, i as int),
        decreases n - i,
    {
        proof {
            lemma_bonus_sum_bound(*mem, items, i as int);
        }
        let a = wrap_add_u64(items, LIST_DATA_OFFSET + LIST_ELEMENT_STRIDE * (i as u64));
        let e = match mem.read_u32(a) {
            Some(e) => e,
            None => 0,
        };
        total = total + (e as u64);
        i = i + 1;
    }
    total
}

/// The first player object's address word, zero when the array slot is
/// unreadable.
pub open spec fn spec_player_obj(mem: MemTable, players_pointer: u64) -> u64 {
    match mem.spec_get(spec_wrap_add(players_pointer, PLAYERS_FIRST_OFFSET)) {
        Some(v) => v,
        None => 0,
    }
}

/// The player state derived from this tick's view: without a known step
/// offset the read is not attempted at all; with one, an unreadable step
/// maps through the read-error sentinel.
pub open spec fn spec_player_state_value(
    mem: MemTable,
    players_pointer: u64,
    offset: Option<u64>,
) -> PlayerState {
    match offset {
        Some(off) => spec_player_state_from_u32(
            match mem.spec_get_u32(spec_wrap_add(spec_player_obj(mem, players_pointer), off)) {
                Some(v) => v,
                None => PLAYER_STEP_READ_ERROR,
            },
        ),
        None => PlayerState::OffsetNotReady,
    }
}

/// Reads the first player's step through the player array at
/// `players_pointer`. While the step offset is still unknown the lookup is
/// retried for the next tick and the observation degrades to its
/// offset-not-ready member; an unreadable step degrades to the read-error
/// member. Never fails.
pub fn get_player1_state(
    mem: &MemTable,
    players_pointer: u64,
    memory: &mut Memory,
    meta: &Metadata,
) -> (r: PlayerState)
    ensures
        r == spec_player_state_value(*mem, players_pointer, old(memory).player_state_offset),
        old(memory).player_state_offset is Some ==> *final(memory) == *old(memory),
        old(memory).player_state_offset is None ==> *final(memory) == (Memory {
            player_state_offset: meta.spec_field_offset(ClassId::PlayerPacman, FieldId::Step),
            ..*old(memory)
        }),
{
    let player_obj = match mem.read_u64(wrap_add_u64(players_pointer, PLAYERS_FIRST_OFFSET)) {
        Some(v) => v,
        None => 0,
    };
    let offset = match memory.player_state_offset {
        Some(offset) => offset,
        None => {
            memory.refresh_player_state_offset(meta);
            return PlayerState::OffsetNotReady;
        },
    };
    let step = match mem.read_u32(wrap_add_u64(player_obj, offset)) {
        Some(v) => v,
        None => PLAYER_STEP_READ_ERROR,
    };
    player_state_from_u32(step)
}

/// The levels whose loaded scene holds a boss object.
pub open spec fn spec_is_boss_level(s: Stages) -> bool {
    ||| s == Stages::Stage1_4
    ||| s == Stages::Stage2_4
    ||| s == Stages::Stage3_4
    ||| s == Stages::Stage4_4
    ||| s == Stages::Stage5_4
    ||| s == Stages::Stage6_4
    ||| s == Stages::Stage6_5
    ||| s == Stages::Stage1_4Past
    ||| s == Stages::Stage2_4Past
    ||| s == Stages::Stage3_4Past
    ||| s == Stages::Stage4_4Past
    ||| s == Stages::Stage5_4Past
    ||| s == Stages::Stage6_4Past
}

/// Whether `s` is a level whose loaded scene holds a boss object.
pub fn is_boss_level(s: Stages) -> (r: bool)
    ensures
        r == spec_is_boss_level(s),
{
    s == Stages::Stage1_4 || s == Stages::Stage2_4 || s == Stages::Stage3_4 || s
        == Stages::Stage4_4 || s == Stages::Stage5_4 || s == Stages::Stage6_4 || s
        == Stages::Stage6_5 || s == Stages::Stage1_4Past || s == Stages::Stage2_4Past || s
        == Stages::Stage3_4Past || s == Stages::Stage4_4Past || s == Stages::Stage5_4Past || s
        == Stages::Stage6_4Past
}

/// The boss phase this tick observes: zero off boss levels and on every
/// resolution or read failure.
pub open spec fn spec_boss_value(
    cache: PathCache,
    meta: Metadata,
    mem: MemTable,
    level: Stages,
) -> u32 {
    if spec_is_boss_level(level) {
        match spec_cached_resolve(cache, meta, mem) {
            Some(a) => match mem.spec_get_u32(a) {
                Some(v) => v,
                None => 0,
            },
            None => 0,
        }
    } else {
        0
    }
}

/// Reads the current boss phase on the levels that hold a boss object,
/// through the deliberately cached boss path; zero elsewhere and on any
/// failure.
pub fn get_boss_state(mem: &MemTable, meta: &Metadata, memory: &mut Memory, level_id: Stages) -> (
    r: u32)
    ensures
        r == spec_boss_value(old(memory).boss_state, *meta, *mem, level_id),
        *final(memory) == (Memory { boss_state: final(memory).boss_state, ..*old(memory) }),
        final(memory).boss_state.path == old(memory).boss_state.path,
        !spec_is_boss_level(level_id) ==> final(memory).boss_state == old(memory).boss_state,
        spec_is_boss_level(level_id) && old(memory).boss_state.chain is Some ==> final(memory).boss_state.chain == old(memory).boss_state.chain,
        spec_is_boss_level(level_id) && old(memory).boss_state.chain is None ==> match final(memory).boss_state.chain {
            Some(chain) => chain_matches(chain, old(memory).boss_state.path, *meta),
            None => !spec_derive_ok(old(memory).boss_state.path, *meta),
        },
{
    if !is_boss_level(level_id) {
        return 0;
    }
    let a = match memory.boss_state.resolve_cached(meta, mem) {
        Some(a) => a,
        None => {
            return 0;
        },
    };
    match mem.read_u32(a) {
        Some(v) => v,
        None => 0,
    }
}

/// The level this tick observes: `Unknown` when the scene code cannot be
/// read.
pub open spec fn spec_level_value(m: Memory, meta: Metadata, mem: MemTable) -> Stages {
    match spec_deref_u32(m.level_id, meta, mem) {
        Some(v) => spec_stage_from_u32(v),
        None => Stages::Unknown,
    }
}

/// Whether this tick's level observation is a change: the trigger for
/// re-deriving the per-level paths.
pub open spec fn spec_level_changed(m: Memory, w: Watchers, meta: Metadata, mem: MemTable) -> bool {
    let p = w.level_id.spec_update(spec_level_value(m, meta, mem)).spec_obs();
    p.current != p.previous
}

/// The boss path's cache after this tick's invalidation trigger ran.
pub open spec fn spec_mid_boss_cache(m: Memory, w: Watchers, meta: Metadata, mem: MemTable) -> PathCache {
    if spec_level_changed(m, w, meta, mem) {
        PathCache { path: m.boss_state.path, chain: None }
    } else {
        m.boss_state
    }
}

/// The stage-manager path's cache after this tick's invalidation trigger
/// ran.
pub open spec fn spec_mid_stage_cache(m: Memory, w: Watchers, meta: Metadata, mem: MemTable) -> PathCache {
    if spec_level_changed(m, w, meta, mem) {
        PathCache { path: m.stage_manager_state.path, chain: None }
    } else {
        m.stage_manager_state
    }
}

/// The loading flag this tick observes, false when unreadable.
pub open spec fn spec_loading_value(m: Memory, meta: Metadata, mem: MemTable) -> bool {
    match spec_deref_bool(m.is_loading, meta, mem) {
        Some(v) => v,
        None => false,
    }
}

/// The checkpoint counter this tick observes, zero when unreadable.
pub open spec fn spec_checkpoint_value(m: Memory, meta: Metadata, mem: MemTable) -> i32 {
    match spec_deref_i32(m.checkpoint, meta, mem) {
        Some(v) => v,
        None => 0,
    }
}

/// The player-array pointer this tick resolves, if readable: the player
/// observation is refreshed only when it is.
pub open spec fn spec_players_ptr(m: Memory, meta: Metadata, mem: MemTable) -> Option<u64> {
    spec_deref_u64(m.players_array, meta, mem)
}

/// The stage-manager state this tick observes through the cached path,
/// mapping an unreadable step through zero.
pub open spec fn spec_stage_state_value(cache: PathCache, meta: Metadata, mem: MemTable) -> StageState {
    spec_stage_state_from_u32(
        match spec_cached_resolve(cache, meta, mem) {
            Some(a) => match mem.spec_get_u32(a) {
                Some(v) => v,
                None => 0,
            },
            None => 0,
        },
    )
}

/// The time-trial state this tick observes, mapping an unreadable step
/// through zero.
pub open spec fn spec_tt_state_value(path: PointerPath, meta: Metadata, mem: MemTable) -> TimeTrialState {
    spec_time_trial_state_from_u32(
        match spec_deref_u32(path, meta, mem) {
            Some(v) => v,
            None => 0,
        },
    )
}

/// The bonus-list pointer this tick resolves, if readable: the bonus
/// observation is refreshed only when it is.
pub open spec fn spec_bonus_ptr(m: Memory, meta: Metadata, mem: MemTable) -> Option<u64> {
    spec_deref_u64(m.time_trial_bonus_list, meta, mem)
}

/// The loading-screen object pointer this tick resolves, if readable.
pub open spec fn spec_ui_ptr(m: Memory, meta: Metadata, mem: MemTable) -> Option<u64> {
    spec_deref_u64(m.loadscreen_ui, meta, mem)
}

/// The raw bit pattern of the loading-screen progress read off the
/// loading-screen object, zero when unreadable.
pub open spec fn spec_progress_bits(mem: MemTable, ui: u64) -> u32 {
    match mem.spec_get_u32(spec_wrap_add(ui, LOADING_UI_PROGRESS_OFFSET)) {
        Some(v) => v,
        None => 0,
    }
}

/// The quick-time-event success flag this tick observes, false when
/// unreadable.
pub open spec fn spec_spooky_value(path: PointerPath, meta: Metadata, mem: MemTable) -> bool {
    match spec_deref_bool(path, meta, mem) {
        Some(v) => v,
        None => false,
    }
}

/// The in-game time this tick observes, in centiseconds, zero when the
/// collaborator could not read it.
pub open spec fn spec_igt_value(igt_centis: Option<i64>) -> i64 {
    match igt_centis {
        Some(v) => v,
        None => 0,
    }
}

/// Whether this tick reads the stage-manager state: the modes that watch
/// it, off the stage-select screens.
pub open spec fn spec_stage_read(s: Settings, level: Stages) -> bool {
    &&& (s.timer_mode == TimerMode::IL || s.timer_mode == TimerMode::TimeTrialMarathon)
    &&& level != Stages::StageSelect
    &&& level != Stages::StageSelectPast
}

/// Whether this tick reads the boss phase, per mode and configuration.
pub open spec fn spec_boss_read(s: Settings, level: Stages) -> bool {
    match s.timer_mode {
        TimerMode::IL => s.split_boss_phase,
        TimerMode::TimeTrial => s.split_boss_phase,
        TimerMode::FullGame => level == Stages::Stage6_5 && s.split_tocman,
        TimerMode::TimeTrialMarathon => false,
    }
}

/// Whether the active mode drives the time-trial observations.
pub open spec fn spec_trial_mode(s: Settings) -> bool {
    s.timer_mode == TimerMode::TimeTrial || s.timer_mode == TimerMode::TimeTrialMarathon
}

/// The diagnostic values one tick of the observation refresh emits, in
/// order.
/// The diagnostic segment an individual-level refresh appends.
pub open spec fn spec_il_diags(
    stage_cache: PathCache,
    boss_cache: PathCache,
    s: Settings,
    level: Stages,
    meta: Metadata,
    mem: MemTable,
) -> Seq<Diag> {
    (if spec_stage_read(s, level) {
        seq![Diag::StageStep(spec_stage_state_value(stage_cache, meta, mem))]
    } else {
        Seq::<Diag>::empty()
    }) + (if s.split_boss_phase {
        seq![Diag::Boss(spec_boss_value(boss_cache, meta, mem, level))]
    } else {
        Seq::<Diag>::empty()
    })
}

/// The diagnostic segment a full-game refresh appends.
pub open spec fn spec_fg_diags(
    ui_path: PointerPath,
    spooky_path: PointerPath,
    boss_cache: PathCache,
    s: Settings,
    level: Stages,
    meta: Metadata,
    mem: MemTable,
) -> Seq<Diag> {
    (match spec_deref_u64(ui_path, meta, mem) {
        Some(ui) => seq![Diag::LoadProgressBits(spec_progress_bits(mem, ui))],
        None => Seq::<Diag>::empty(),
    }) + (if level == Stages::Stage6_4 {
        seq![Diag::SpookyQte(spec_spooky_value(spooky_path, meta, mem))]
    } else {
        Seq::<Diag>::empty()
    }) + (if level == Stages::Stage6_5 && s.split_tocman {
        seq![Diag::Boss(spec_boss_value(boss_cache, meta, mem, level))]
    } else {
        Seq::<Diag>::empty()
    })
}

/// The diagnostic segment a time-trial refresh appends.
pub open spec fn spec_tt_diags(
    bonus_path: PointerPath,
    tt_path: PointerPath,
    boss_cache: PathCache,
    s: Settings,
    level: Stages,
    meta: Metadata,
    mem: MemTable,
    igt_centis: Option<i64>,
) -> Seq<Diag> {
    (match spec_deref_u64(bonus_path, meta, mem) {
        Some(ptr) => seq![Diag::TrialBonus((spec_time_bonus(mem, ptr)) as u64)],
        None => Seq::<Diag>::empty(),
    }) + (if s.split_boss_phase {
        seq![Diag::Boss(spec_boss_value(boss_cache, meta, mem, level))]
    } else {
        Seq::<Diag>::empty()
    }) + seq![
        Diag::TrialTimer(spec_igt_value(igt_centis)),
        Diag::TrialState(spec_tt_state_value(tt_path, meta, mem)),
    ]
}

/// The diagnostic segment a marathon refresh appends.
pub open spec fn spec_mt_diags(
    stage_cache: PathCache,
    bonus_path: PointerPath,
    tt_path: PointerPath,
    s: Settings,
    level: Stages,
    meta: Metadata,
    mem: MemTable,
    igt_centis: Option<i64>,
) -> Seq<Diag> {
    (if spec_stage_read(s, level) {
        seq![Diag::StageStep(spec_stage_state_value(stage_cache, meta, mem))]
    } else {
        Seq::<Diag>::empty()
    }) + (match spec_deref_u64(bonus_path, meta, mem) {
        Some(ptr) => seq![Diag::TrialBonus((spec_time_bonus(mem, ptr)) as u64)],
        None => Seq::<Diag>::empty(),
    }) + seq![
        Diag::TrialTimer(spec_igt_value(igt_centis)),
        Diag::TrialState(spec_tt_state_value(tt_path, meta, mem)),
    ]
}

/// The diagnostic values one tick of the observation refresh emits, in
/// order: the always-on base values, then the active mode's segment.
#[verifier::opaque]
pub open spec fn spec_tick_diags(
    m: Memory,
    w: Watchers,
    meta: Metadata,
    mem: MemTable,
    s: Settings,
    igt_centis: Option<i64>,
) -> Seq<Diag> {
    let level = spec_level_value(m, meta, mem);
    let base = (match spec_players_ptr(m, meta, mem) {
        Some(p) => seq![Diag::Player(spec_player_state_value(mem, p, m.player_state_offset))],
        None => Seq::<Diag>::empty(),
    }) + seq![
        Diag::Loading(spec_loading_value(m, meta, mem)),
        Diag::Level(level),
        Diag::Checkpoint(spec_checkpoint_value(m, meta, mem)),
    ];
    base + (match s.timer_mode {
        TimerMode::IL => spec_il_diags(
            spec_mid_stage_cache(m, w, meta, mem),
            spec_mid_boss_cache(m, w, meta, mem),
            s,
            level,
            meta,
            mem,
        ),
        TimerMode::FullGame => spec_fg_diags(
            m.loadscreen_ui,
            m.spooky_qte_success,
            spec_mid_boss_cache(m, w, meta, mem),
            s,
            level,
            meta,
            mem,
        ),
        TimerMode::TimeTrial => spec_tt_diags(
            m.time_trial_bonus_list,
            m.time_trial_state,
            spec_mid_boss_cache(m, w, meta, mem),
            s,
            level,
            meta,
            mem,
            igt_centis,
        ),
        TimerMode::TimeTrialMarathon => spec_mt_diags(
            spec_mid_stage_cache(m, w, meta, mem),
            m.time_trial_bonus_list,
            m.time_trial_state,
            s,
            level,
            meta,
            mem,
            igt_centis,
        ),
    })
}


/// One stage-manager refresh: resolves through the deliberately cached
/// path, maps the raw step, updates the watcher and pushes its diagnostic.
fn stage_step_block(
    meta: &Metadata,
    mem: &MemTable,
    memory: &mut Memory,
    watchers: &mut Watchers,
    diags: &mut Vec<Diag>,
)
    ensures
        *final(memory) == (Memory {
            stage_manager_state: final(memory).stage_manager_state,
            ..*old(memory)
        }),
        final(memory).stage_manager_state.path == old(memory).stage_manager_state.path,
        old(memory).stage_manager_state.chain is Some ==> final(memory).stage_manager_state.chain
            == old(memory).stage_manager_state.chain,
        old(memory).stage_manager_state.chain is None ==> match final(memory).stage_manager_state.chain {
            Some(chain) => chain_matches(chain, old(memory).stage_manager_state.path, *meta),
            None => !spec_derive_ok(old(memory).stage_manager_state.path, *meta),
        },
        *final(watchers) == (Watchers {
            stage_state: final(watchers).stage_state,
            ..*old(watchers)
        }),
        final(watchers).stage_state == old(watchers).stage_state.spec_update(
            spec_stage_state_value(old(memory).stage_manager_state, *meta, *mem),
        ),
        final(diags)@ == old(diags)@.push(
            Diag::StageStep(spec_stage_state_value(old(memory).stage_manager_state, *meta, *mem)),
        ),
{
    let raw = match memory.stage_manager_state.resolve_cached(meta, mem) {
        Some(a) => match mem.read_u32(a) {
            Some(v) => v,
            None => 0,
        },
        None => 0,
    };
    let stage_step = get_stage_manager_state(raw);
    watchers.stage_state.update(stage_step);
    diags.push(Diag::StageStep(stage_step));
}

/// One boss-phase refresh: reads through the deliberately cached boss
/// path, updates the watcher and pushes its diagnostic.
fn boss_block(
    meta: &Metadata,
    mem: &MemTable,
    memory: &mut Memory,
    watchers: &mut Watchers,
    diags: &mut Vec<Diag>,
    level: Stages,
)
    ensures
        *final(memory) == (Memory { boss_state: final(memory).boss_state, ..*old(memory) }),
        final(memory).boss_state.path == old(memory).boss_state.path,
        !spec_is_boss_level(level) ==> final(memory).boss_state == old(memory).boss_state,
        spec_is_boss_level(level) && old(memory).boss_state.chain is Some ==> final(memory).boss_state.chain
            == old(memory).boss_state.chain,
        spec_is_boss_level(level) && old(memory).boss_state.chain is None ==> match final(memory).boss_state.chain {
            Some(chain) => chain_matches(chain, old(memory).boss_state.path, *meta),
            None => !spec_derive_ok(old(memory).boss_state.path, *meta),
        },
        *final(watchers) == (Watchers { boss_state: final(watchers).boss_state, ..*old(watchers) }),
        final(watchers).boss_state == old(watchers).boss_state.spec_update(
            spec_boss_value(old(memory).boss_state, *meta, *mem, level),
        ),
        final(diags)@ == old(diags)@.push(
            Diag::Boss(spec_boss_value(old(memory).boss_state, *meta, *mem, level)),
        ),
{
    let b = get_boss_state(mem, meta, memory, level);
    watchers.boss_state.update(b);
    diags.push(Diag::Boss(b));
}

/// One bonus-list refresh: resolves the list pointer and, when readable,
/// sums the list, updates the watcher and pushes its diagnostic.
fn bonus_block(
    meta: &Metadata,
    mem: &MemTable,
    path: &PointerPath,
    watchers: &mut Watchers,
    diags: &mut Vec<Diag>,
)
    ensures
        *final(watchers) == (Watchers {
            time_trial_bonus_time: final(watchers).time_trial_bonus_time,
            ..*old(watchers)
        }),
        final(watchers).time_trial_bonus_time == match spec_deref_u64(*path, *meta, *mem) {
            Some(ptr) => old(watchers).time_trial_bonus_time.spec_update(
                (spec_time_bonus(*mem, ptr)) as u64,
            ),
            None => old(watchers).time_trial_bonus_time.spec_refresh(),
        },
        final(diags)@ == match spec_deref_u64(*path, *meta, *mem) {
            Some(ptr) => old(diags)@.push(Diag::TrialBonus((spec_time_bonus(*mem, ptr)) as u64)),
            None => old(diags)@,
        },
{
    match deref_u64(path, meta, mem) {
        Some(ptr) => {
            let b = calculate_time_bonus(mem, ptr);
            watchers.time_trial_bonus_time.update(b);
            diags.push(Diag::TrialBonus(b));
        },
        None => {
            watchers.time_trial_bonus_time.refresh_last_known();
        },
    }
}

/// One refresh of the two trial observations: the pre-converted in-game
/// time (zero when the read failed) and the trial state.
fn trial_core_block(
    meta: &Metadata,
    mem: &MemTable,
    tt_path: &PointerPath,
    watchers: &mut Watchers,
    igt_centis: Option<i64>,
) -> (r: (i64, TimeTrialState))
    ensures
        r.0 == spec_igt_value(igt_centis),
        r.1 == spec_tt_state_value(*tt_path, *meta, *mem),
        *final(watchers) == (Watchers {
            time_trial_igt: final(watchers).time_trial_igt,
            time_trial_state: final(watchers).time_trial_state,
            ..*old(watchers)
        }),
        final(watchers).time_trial_igt == old(watchers).time_trial_igt.spec_update(
            spec_igt_value(igt_centis),
        ),
        final(watchers).time_trial_state == old(watchers).time_trial_state.spec_update(
            spec_tt_state_value(*tt_path, *meta, *mem),
        ),
{
    let igt = match igt_centis {
        Some(v) => v,
        None => 0,
    };
    watchers.time_trial_igt.update(igt);
    let raw = match deref_u32(tt_path, meta, mem) {
        Some(v) => v,
        None => 0,
    };
    let trial_state = time_trial_state_int_to_enum(raw);
    watchers.time_trial_state.update(trial_state);
    (igt, trial_state)
}

/// One loading-progress refresh: resolves the loading-screen object and,
/// when readable, reads the raw progress bits off it, updates the watcher
/// and pushes its diagnostic.
fn progress_block(
    meta: &Metadata,
    mem: &MemTable,
    ui_path: &PointerPath,
    watchers: &mut Watchers,
    diags: &mut Vec<Diag>,
)
    ensures
        *final(watchers) == (Watchers {
            load_ui_progress_bits: final(watchers).load_ui_progress_bits,
            ..*old(watchers)
        }),
        final(watchers).load_ui_progress_bits == match spec_deref_u64(*ui_path, *meta, *mem) {
            Some(ui) => old(watchers).load_ui_progress_bits.spec_update(
                spec_progress_bits(*mem, ui),
            ),
            None => old(watchers).load_ui_progress_bits.spec_refresh(),
        },
        final(diags)@ == match spec_deref_u64(*ui_path, *meta, *mem) {
            Some(ui) => old(diags)@.push(Diag::LoadProgressBits(spec_progress_bits(*mem, ui))),
            None => old(diags)@,
        },
{
    match deref_u64(ui_path, meta, mem) {
        Some(ui) => {
            let bits = match mem.read_u32(wrap_add_u64(ui, LOADING_UI_PROGRESS_OFFSET)) {
                Some(v) => v,
                None => 0,
            };
            watchers.load_ui_progress_bits.update(bits);
            diags.push(Diag::LoadProgressBits(bits));
        },
        None => {
            watchers.load_ui_progress_bits.refresh_last_known();
        },
    }
}

/// One quick-time-event refresh: reads the success flag, updates the
/// watcher and pushes its diagnostic.
fn spooky_block(
    meta: &Metadata,
    mem: &MemTable,
    path: &PointerPath,
    watchers: &mut Watchers,
    diags: &mut Vec<Diag>,
)
    ensures
        *final(watchers) == (Watchers {
            spooky_qte_success: final(watchers).spooky_qte_success,
            ..*old(watchers)
        }),
        final(watchers).spooky_qte_success == old(watchers).spooky_qte_success.spec_update(
            spec_spooky_value(*path, *meta, *mem),
        ),
        final(diags)@ == old(diags)@.push(Diag::SpookyQte(spec_spooky_value(*path, *meta, *mem))),
{
    let v = match deref_bool(path, meta, mem) {
        Some(v) => v,
        None => false,
    };
    watchers.spooky_qte_success.update(v);
    diags.push(Diag::SpookyQte(v));
}


/// The individual-level slice of the observation refresh: the
/// stage-manager state (off the stage selects) and, when phase splits are
/// on, the boss phase.
fn refresh_il(
    meta: &Metadata,
    mem: &MemTable,
    s: &Settings,
    memory: &mut Memory,
    watchers: &mut Watchers,
    diags: &mut Vec<Diag>,
    level: Stages,
)
    requires
        s.timer_mode == TimerMode::IL,
    ensures
        *final(memory) == (Memory {
            boss_state: final(memory).boss_state,
            stage_manager_state: final(memory).stage_manager_state,
            ..*old(memory)
        }),
        final(memory).stage_manager_state.path == old(memory).stage_manager_state.path,
        final(memory).boss_state.path == old(memory).boss_state.path,
        !spec_stage_read(*s, level) ==> final(memory).stage_manager_state == old(memory).stage_manager_state,
        spec_stage_read(*s, level) && old(memory).stage_manager_state.chain is Some ==> final(memory).stage_manager_state.chain
            == old(memory).stage_manager_state.chain,
        spec_stage_read(*s, level) && old(memory).stage_manager_state.chain is None ==> match final(memory).stage_manager_state.chain {
            Some(chain) => chain_matches(chain, old(memory).stage_manager_state.path, *meta),
            None => !spec_derive_ok(old(memory).stage_manager_state.path, *meta),
        },
        !(s.split_boss_phase && spec_is_boss_level(level)) ==> final(memory).boss_state == old(memory).boss_state,
        s.split_boss_phase && spec_is_boss_level(level) && old(memory).boss_state.chain is Some ==> final(memory).boss_state.chain
            == old(memory).boss_state.chain,
        s.split_boss_phase && spec_is_boss_level(level) && old(memory).boss_state.chain is None ==> match final(memory).boss_state.chain {
            Some(chain) => chain_matches(chain, old(memory).boss_state.path, *meta),
            None => !spec_derive_ok(old(memory).boss_state.path, *meta),
        },
        *final(watchers) == (Watchers {
            stage_state: final(watchers).stage_state,
            boss_state: final(watchers).boss_state,
            ..*old(watchers)
        }),
        final(watchers).stage_state == if spec_stage_read(*s, level) {
            old(watchers).stage_state.spec_update(
                spec_stage_state_value(old(memory).stage_manager_state, *meta, *mem),
            )
        } else {
            old(watchers).stage_state
        },
        final(watchers).boss_state == if s.split_boss_phase {
            old(watchers).boss_state.spec_update(
                spec_boss_value(old(memory).boss_state, *meta, *mem, level),
            )
        } else {
            old(watchers).boss_state
        },
        final(diags)@ == old(diags)@ + spec_il_diags(
            old(memory).stage_manager_state,
            old(memory).boss_state,
            *s,
            level,
            *meta,
            *mem,
        ),
{
    if level != Stages::StageSelect && level != Stages::StageSelectPast {
        stage_step_block(meta, mem, memory, watchers, diags);
    }
    if s.split_boss_phase {
        boss_block(meta, mem, memory, watchers, diags, level);
    }
    assert(diags@ =~= old(diags)@ + spec_il_diags(
        old(memory).stage_manager_state,
        old(memory).boss_state,
        *s,
        level,
        *meta,
        *mem,
    ));
}

/// The full-game slice of the observation refresh: the loading-screen
/// progress, the quick-time-event flag on its level, and the final boss's
/// phase on its level.
fn refresh_full_game(
    meta: &Metadata,
    mem: &MemTable,
    s: &Settings,
    memory: &mut Memory,
    watchers: &mut Watchers,
    diags: &mut Vec<Diag>,
    level: Stages,
)
    requires
        s.timer_mode == TimerMode::FullGame,
    ensures
        *final(memory) == (Memory { boss_state: final(memory).boss_state, ..*old(memory) }),
        final(memory).boss_state.path == old(memory).boss_state.path,
        !(level == Stages::Stage6_5 && s.split_tocman) ==> final(memory).boss_state == old(memory).boss_state,
        level == Stages::Stage6_5 && s.split_tocman && old(memory).boss_state.chain is Some ==> final(memory).boss_state.chain
            == old(memory).boss_state.chain,
        level == Stages::Stage6_5 && s.split_tocman && old(memory).boss_state.chain is None ==> match final(memory).boss_state.chain {
            Some(chain) => chain_matches(chain, old(memory).boss_state.path, *meta),
            None => !spec_derive_ok(old(memory).boss_state.path, *meta),
        },
        *final(watchers) == (Watchers {
            load_ui_progress_bits: final(watchers).load_ui_progress_bits,
            spooky_qte_success: final(watchers).spooky_qte_success,
            boss_state: final(watchers).boss_state,
            ..*old(watchers)
        }),
        final(watchers).load_ui_progress_bits == match spec_deref_u64(old(memory).loadscreen_ui, *meta, *mem) {
            Some(ui) => old(watchers).load_ui_progress_bits.spec_update(
                spec_progress_bits(*mem, ui),
            ),
            None => old(watchers).load_ui_progress_bits.spec_refresh(),
        },
        final(watchers).spooky_qte_success == if level == Stages::Stage6_4 {
            old(watchers).spooky_qte_success.spec_update(
                spec_spooky_value(old(memory).spooky_qte_success, *meta, *mem),
            )
        } else {
            old(watchers).spooky_qte_success
        },
        final(watchers).boss_state == if level == Stages::Stage6_5 && s.split_tocman {
            old(watchers).boss_state.spec_update(
                spec_boss_value(old(memory).boss_state, *meta, *mem, level),
            )
        } else {
            old(watchers).boss_state
        },
        final(diags)@ == old(diags)@ + spec_fg_diags(
            old(memory).loadscreen_ui,
            old(memory).spooky_qte_success,
            old(memory).boss_state,
            *s,
            level,
            *meta,
            *mem,
        ),
{
    progress_block(meta, mem, &memory.loadscreen_ui, watchers, diags);
    if level == Stages::Stage6_4 {
        spooky_block(meta, mem, &memory.spooky_qte_success, watchers, diags);
    }
    if level == Stages::Stage6_5 && s.split_tocman {
        boss_block(meta, mem, memory, watchers, diags, level);
    }
    assert(diags@ =~= old(diags)@ + spec_fg_diags(
        old(memory).loadscreen_ui,
        old(memory).spooky_qte_success,
        old(memory).boss_state,
        *s,
        level,
        *meta,
        *mem,
    ));
}

/// The time-trial slice of the observation refresh: the bonus-time sum,
/// the in-game time and trial state, and, when phase splits are on, the
/// boss phase.
fn refresh_time_trial(
    meta: &Metadata,
    mem: &MemTable,
    s: &Settings,
    memory: &mut Memory,
    watchers: &mut Watchers,
    diags: &mut Vec<Diag>,
    level: Stages,
    igt_centis: Option<i64>,
)
    requires
        s.timer_mode == TimerMode::TimeTrial,
    ensures
        *final(memory) == (Memory { boss_state: final(memory).boss_state, ..*old(memory) }),
        final(memory).boss_state.path == old(memory).boss_state.path,
        !(s.split_boss_phase && spec_is_boss_level(level)) ==> final(memory).boss_state == old(memory).boss_state,
        s.split_boss_phase && spec_is_boss_level(level) && old(memory).boss_state.chain is Some ==> final(memory).boss_state.chain
            == old(memory).boss_state.chain,
        s.split_boss_phase && spec_is_boss_level(level) && old(memory).boss_state.chain is None ==> match final(memory).boss_state.chain {
            Some(chain) => chain_matches(chain, old(memory).boss_state.path, *meta),
            None => !spec_derive_ok(old(memory).boss_state.path, *meta),
        },
        *final(watchers) == (Watchers {
            time_trial_bonus_time: final(watchers).time_trial_bonus_time,
            time_trial_igt: final(watchers).time_trial_igt,
            time_trial_state: final(watchers).time_trial_state,
            boss_state: final(watchers).boss_state,
            ..*old(watchers)
        }),
        final(watchers).time_trial_bonus_time == match spec_deref_u64(old(memory).time_trial_bonus_list, *meta, *mem) {
            Some(ptr) => old(watchers).time_trial_bonus_time.spec_update(
                (spec_time_bonus(*mem, ptr)) as u64,
            ),
            None => old(watchers).time_trial_bonus_time.spec_refresh(),
        },
        final(watchers).time_trial_igt == old(watchers).time_trial_igt.spec_update(
            spec_igt_value(igt_centis),
        ),
        final(watchers).time_trial_state == old(watchers).time_trial_state.spec_update(
            spec_tt_state_value(old(memory).time_trial_state, *meta, *mem),
        ),
        final(watchers).boss_state == if s.split_boss_phase {
            old(watchers).boss_state.spec_update(
                spec_boss_value(old(memory).boss_state, *meta, *mem, level),
            )
        } else {
            old(watchers).boss_state
        },
        final(diags)@ == old(diags)@ + spec_tt_diags(
            old(memory).time_trial_bonus_list,
            old(memory).time_trial_state,
            old(memory).boss_state,
            *s,
            level,
            *meta,
            *mem,
            igt_centis,
        ),
{
    bonus_block(meta, mem, &memory.time_trial_bonus_list, watchers, diags);
    let (igt, trial_state) = trial_core_block(
        meta,
        mem,
        &memory.time_trial_state,
        watchers,
        igt_centis,
    );
    if s.split_boss_phase {
        boss_block(meta, mem, memory, watchers, diags, level);
    }
    diags.push(Diag::TrialTimer(igt));
    diags.push(Diag::TrialState(trial_state));
    assert(diags@ =~= old(diags)@ + spec_tt_diags(
        old(memory).time_trial_bonus_list,
        old(memory).time_trial_state,
        old(memory).boss_state,
        *s,
        level,
        *meta,
        *mem,
        igt_centis,
    ));
}

/// The marathon slice of the observation refresh: the stage-manager state
/// (off the stage selects), the bonus-time sum, and the in-game time and
/// trial state.
fn refresh_marathon(
    meta: &Metadata,
    mem: &MemTable,
    s: &Settings,
    memory: &mut Memory,
    watchers: &mut Watchers,
    diags: &mut Vec<Diag>,
    level: Stages,
    igt_centis: Option<i64>,
)
    requires
        s.timer_mode == TimerMode::TimeTrialMarathon,
    ensures
        *final(memory) == (Memory {
            stage_manager_state: final(memory).stage_manager_state,
            ..*old(memory)
        }),
        final(memory).stage_manager_state.path == old(memory).stage_manager_state.path,
        !spec_stage_read(*s, level) ==> final(memory).stage_manager_state == old(memory).stage_manager_state,
        spec_stage_read(*s, level) && old(memory).stage_manager_state.chain is Some ==> final(memory).stage_manager_state.chain
            == old(memory).stage_manager_state.chain,
        spec_stage_read(*s, level) && old(memory).stage_manager_state.chain is None ==> match final(memory).stage_manager_state.chain {
            Some(chain) => chain_matches(chain, old(memory).stage_manager_state.path, *meta),
            None => !spec_derive_ok(old(memory).stage_manager_state.path, *meta),
        },
        *final(watchers) == (Watchers {
            stage_state: final(watchers).stage_state,
            time_trial_bonus_time: final(watchers).time_trial_bonus_time,
            time_trial_igt: final(watchers).time_trial_igt,
            time_trial_state: final(watchers).time_trial_state,
            ..*old(watchers)
        }),
        final(watchers).stage_state == if spec_stage_read(*s, level) {
            old(watchers).stage_state.spec_update(
                spec_stage_state_value(old(memory).stage_manager_state, *meta, *mem),
            )
        } else {
            old(watchers).stage_state
        },
        final(watchers).time_trial_bonus_time == match spec_deref_u64(old(memory).time_trial_bonus_list, *meta, *mem) {
            Some(ptr) => old(watchers).time_trial_bonus_time.spec_update(
                (spec_time_bonus(*mem, ptr)) as u64,
            ),
            None => old(watchers).time_trial_bonus_time.spec_refresh(),
        },
        final(watchers).time_trial_igt == old(watchers).time_trial_igt.spec_update(
            spec_igt_value(igt_centis),
        ),
        final(watchers).time_trial_state == old(watchers).time_trial_state.spec_update(
            spec_tt_state_value(old(memory).time_trial_state, *meta, *mem),
        ),
        final(diags)@ == old(diags)@ + spec_mt_diags(
            old(memory).stage_manager_state,
            old(memory).time_trial_bonus_list,
            old(memory).time_trial_state,
            *s,
            level,
            *meta,
            *mem,
            igt_centis,
        ),
{
    if level != Stages::StageSelect && level != Stages::StageSelectPast {
        stage_step_block(meta, mem, memory, watchers, diags);
    }
    bonus_block(meta, mem, &memory.time_trial_bonus_list, watchers, diags);
    let (igt, trial_state) = trial_core_block(
        meta,
        mem,
        &memory.time_trial_state,
        watchers,
        igt_centis,
    );
    diags.push(Diag::TrialTimer(igt));
    diags.push(Diag::TrialState(trial_state));
    assert(diags@ =~= old(diags)@ + spec_mt_diags(
        old(memory).stage_manager_state,
        old(memory).time_trial_bonus_list,
        old(memory).time_trial_state,
        *s,
        level,
        *meta,
        *mem,
        igt_centis,
    ));
}

/// The driver's read-observe step, run once per tick before the active
/// mode's state machine: resolves every tracked quantity against this
/// tick's metadata and memory view, updates the watchers, re-derives the
/// per-level paths when the level changed, and returns the tick's
/// diagnostic values. A failed read never blocks the tick and never
/// freezes a pair: a failed value read substitutes the documented default,
/// and a quantity whose pointer failed to resolve this tick (the player
/// step, the bonus sum, the loading progress) is shifted with its
/// last-known-good value, so no edge outlives the tick it was observed
/// on.
///
/// The in-game time arrives pre-converted to centiseconds from the
/// collaborator that performs the raw reads, `None` standing for a failed
/// read.
#[verifier::rlimit(100)]
#[verifier::spinoff_prover]
pub fn update_watchers(
    meta: &Metadata,
    mem: &MemTable,
    s: &Settings,
    memory: &mut Memory,
    watchers: &mut Watchers,
    igt_centis: Option<i64>,
) -> (diags: Vec<Diag>)
    ensures
        diags@ == spec_tick_diags(*old(memory), *old(watchers), *meta, *mem, *s, igt_centis),
        final(watchers).level_id == old(watchers).level_id.spec_update(
            spec_level_value(*old(memory), *meta, *mem),
        ),
        final(watchers).is_loading == old(watchers).is_loading.spec_update(
            spec_loading_value(*old(memory), *meta, *mem),
        ),
        final(watchers).checkpoint == old(watchers).checkpoint.spec_update(
            spec_checkpoint_value(*old(memory), *meta, *mem),
        ),
        final(watchers).player_state == match spec_players_ptr(*old(memory), *meta, *mem) {
            Some(p) => old(watchers).player_state.spec_update(
                spec_player_state_value(*mem, p, old(memory).player_state_offset),
            ),
            None => old(watchers).player_state.spec_refresh(),
        },
        final(watchers).stage_state == if spec_stage_read(*s, spec_level_value(*old(memory), *meta, *mem)) {
            old(watchers).stage_state.spec_update(
                spec_stage_state_value(spec_mid_stage_cache(*old(memory), *old(watchers), *meta, *mem), *meta, *mem),
            )
        } else {
            old(watchers).stage_state
        },
        final(watchers).boss_state == if spec_boss_read(*s, spec_level_value(*old(memory), *meta, *mem)) {
            old(watchers).boss_state.spec_update(
                spec_boss_value(
                    spec_mid_boss_cache(*old(memory), *old(watchers), *meta, *mem),
                    *meta,
                    *mem,
                    spec_level_value(*old(memory), *meta, *mem),
                ),
            )
        } else {
            old(watchers).boss_state
        },
        final(watchers).spooky_qte_success == if s.timer_mode == TimerMode::FullGame
            && spec_level_value(*old(memory), *meta, *mem) == Stages::Stage6_4 {
            old(watchers).spooky_qte_success.spec_update(spec_spooky_value(old(memory).spooky_qte_success, *meta, *mem))
        } else {
            old(watchers).spooky_qte_success
        },
        final(watchers).load_ui_progress_bits == if s.timer_mode == TimerMode::FullGame {
            match spec_ui_ptr(*old(memory), *meta, *mem) {
                Some(ui) => old(watchers).load_ui_progress_bits.spec_update(spec_progress_bits(*mem, ui)),
                None => old(watchers).load_ui_progress_bits.spec_refresh(),
            }
        } else {
            old(watchers).load_ui_progress_bits
        },
        final(watchers).time_trial_igt == if spec_trial_mode(*s) {
            old(watchers).time_trial_igt.spec_update(spec_igt_value(igt_centis))
        } else {
            old(watchers).time_trial_igt
        },
        final(watchers).time_trial_state == if spec_trial_mode(*s) {
            old(watchers).time_trial_state.spec_update(spec_tt_state_value(old(memory).time_trial_state, *meta, *mem))
        } else {
            old(watchers).time_trial_state
        },
        final(watchers).time_trial_bonus_time == if spec_trial_mode(*s) {
            match spec_bonus_ptr(*old(memory), *meta, *mem) {
                Some(ptr) => old(watchers).time_trial_bonus_time.spec_update(
                    (spec_time_bonus(*mem, ptr)) as u64,
                ),
                None => old(watchers).time_trial_bonus_time.spec_refresh(),
            }
        } else {
            old(watchers).time_trial_bonus_time
        },
        final(memory).is_loading == old(memory).is_loading,
        final(memory).loadscreen_ui == old(memory).loadscreen_ui,
        final(memory).level_id == old(memory).level_id,
        final(memory).checkpoint == old(memory).checkpoint,
        final(memory).time_trial_igt == old(memory).time_trial_igt,
        final(memory).time_trial_state == old(memory).time_trial_state,
        final(memory).time_trial_bonus_list == old(memory).time_trial_bonus_list,
        final(memory).spooky_qte_success == old(memory).spooky_qte_success,
        final(memory).players_array == old(memory).players_array,
        final(memory).boss_state.path == old(memory).boss_state.path,
        final(memory).stage_manager_state.path == old(memory).stage_manager_state.path,
        cache_evolved(
            old(memory).boss_state,
            final(memory).boss_state,
            spec_level_changed(*old(memory), *old(watchers), *meta, *mem),
            spec_boss_read(*s, spec_level_value(*old(memory), *meta, *mem))
                && spec_is_boss_level(spec_level_value(*old(memory), *meta, *mem)),
            *meta,
        ),
        cache_evolved(
            old(memory).stage_manager_state,
            final(memory).stage_manager_state,
            spec_level_changed(*old(memory), *old(watchers), *meta, *mem),
            spec_stage_read(*s, spec_level_value(*old(memory), *meta, *mem)),
            *meta,
        ),
        final(memory).player_state_offset == if spec_players_ptr(*old(memory), *meta, *mem) is Some
            && old(memory).player_state_offset is None {
            meta.spec_field_offset(ClassId::PlayerPacman, FieldId::Step)
        } else {
            old(memory).player_state_offset
        },
{
    let ghost m0 = *memory;
    let ghost w0 = *watchers;
    let mut diags: Vec<Diag> = Vec::new();
    let level = match deref_u32(&memory.level_id, meta, mem) {
        Some(v) => stage_from_u32(v),
        None => Stages::Unknown,
    };
    watchers.level_id.update(level);
    let lv = watchers.level_id.obs();
    if lv.current != lv.previous {
        memory.refresh_pointers();
    }
    let loading = match deref_bool(&memory.is_loading, meta, mem) {
        Some(v) => v,
        None => false,
    };
    watchers.is_loading.update(loading);
    let checkpoint = match deref_i32(&memory.checkpoint, meta, mem) {
        Some(v) => v,
        None => 0,
    };
    watchers.checkpoint.update(checkpoint);
    match deref_u64(&memory.players_array, meta, mem) {
        Some(p) => {
            let ps = get_player1_state(mem, p, memory, meta);
            watchers.player_state.update(ps);
            diags.push(Diag::Player(ps));
        },
        None => {
            watchers.player_state.refresh_last_known();
        },
    }
    diags.push(Diag::Loading(loading));
    diags.push(Diag::Level(level));
    diags.push(Diag::Checkpoint(checkpoint));
    let ghost base = (match spec_players_ptr(m0, *meta, *mem) {
        Some(p) => seq![Diag::Player(spec_player_state_value(*mem, p, m0.player_state_offset))],
        None => Seq::<Diag>::empty(),
    }) + seq![
        Diag::Loading(spec_loading_value(m0, *meta, *mem)),
        Diag::Level(spec_level_value(m0, *meta, *mem)),
        Diag::Checkpoint(spec_checkpoint_value(m0, *meta, *mem)),
    ];
    assert(diags@ =~= base);
    match s.timer_mode {
        TimerMode::IL => {
            refresh_il(meta, mem, s, memory, watchers, &mut diags, level);
            proof {
                reveal(spec_tick_diags);
                assert(diags@ =~= spec_tick_diags(m0, w0, *meta, *mem, *s, igt_centis));
            }
        },
        TimerMode::FullGame => {
            refresh_full_game(meta, mem, s, memory, watchers, &mut diags, level);
            proof {
                reveal(spec_tick_diags);
                assert(diags@ =~= spec_tick_diags(m0, w0, *meta, *mem, *s, igt_centis));
            }
        },
        TimerMode::TimeTrial => {
            refresh_time_trial(meta, mem, s, memory, watchers, &mut diags, level, igt_centis);
            proof {
                reveal(spec_tick_diags);
                assert(diags@ =~= spec_tick_diags(m0, w0, *meta, *mem, *s, igt_centis));
            }
        },
        TimerMode::TimeTrialMarathon => {
            refresh_marathon(meta, mem, s, memory, watchers, &mut diags, level, igt_centis);
            proof {
                reveal(spec_tick_diags);
                assert(diags@ =~= spec_tick_diags(m0, w0, *meta, *mem, *s, igt_centis));
            }
        },
    }
    diags
}

/// The whole watcher set as one tick of the observation refresh leaves it.
pub open spec fn spec_tick_watchers(
    m: Memory,
    w: Watchers,
    meta: Metadata,
    mem: MemTable,
    s: Settings,
    igt_centis: Option<i64>,
) -> Watchers {
    let level = spec_level_value(m, meta, mem);
    Watchers {
        level_id: w.level_id.spec_update(level),
        is_loading: w.is_loading.spec_update(spec_loading_value(m, meta, mem)),
        checkpoint: w.checkpoint.spec_update(spec_checkpoint_value(m, meta, mem)),
        player_state: match spec_players_ptr(m, meta, mem) {
            Some(p) => w.player_state.spec_update(
                spec_player_state_value(mem, p, m.player_state_offset),
            ),
            None => w.player_state.spec_refresh(),
        },
        stage_state: if spec_stage_read(s, level) {
            w.stage_state.spec_update(
                spec_stage_state_value(spec_mid_stage_cache(m, w, meta, mem), meta, mem),
            )
        } else {
            w.stage_state
        },
        boss_state: if spec_boss_read(s, level) {
            w.boss_state.spec_update(
                spec_boss_value(spec_mid_boss_cache(m, w, meta, mem), meta, mem, level),
            )
        } else {
            w.boss_state
        },
        spooky_qte_success: if s.timer_mode == TimerMode::FullGame && level == Stages::Stage6_4 {
            w.spooky_qte_success.spec_update(spec_spooky_value(m.spooky_qte_success, meta, mem))
        } else {
            w.spooky_qte_success
        },
        load_ui_progress_bits: if s.timer_mode == TimerMode::FullGame {
            match spec_ui_ptr(m, meta, mem) {
                Some(ui) => w.load_ui_progress_bits.spec_update(spec_progress_bits(mem, ui)),
                None => w.load_ui_progress_bits.spec_refresh(),
            }
        } else {
            w.load_ui_progress_bits
        },
        time_trial_igt: if spec_trial_mode(s) {
            w.time_trial_igt.spec_update(spec_igt_value(igt_centis))
        } else {
            w.time_trial_igt
        },
        time_trial_state: if spec_trial_mode(s) {
            w.time_trial_state.spec_update(spec_tt_state_value(m.time_trial_state, meta, mem))
        } else {
            w.time_trial_state
        },
        time_trial_bonus_time: if spec_trial_mode(s) {
            match spec_bonus_ptr(m, meta, mem) {
                Some(ptr) => w.time_trial_bonus_time.spec_update((spec_time_bonus(mem, ptr)) as u64),
                None => w.time_trial_bonus_time.spec_refresh(),
            }
        } else {
            w.time_trial_bonus_time
        },
    }
}

} // verus!
