//! The live type-metadata view.
//!
//! A symbolic pointer path names a class and a chain of fields; what it
//! resolves to depends on the byte offsets the target's own type metadata
//! assigns to those names in the build being observed. The metadata
//! collaborator hands the library this table — one row per class, with the
//! class's static-field base address and its field offsets — and every
//! lookup can fail, per tick, independently of earlier ticks.
use vstd::prelude::*;

use crate::lookup::assoc_last;
use crate::lookup::lemma_assoc_last_at;
use crate::lookup::lemma_assoc_last_none;

verus! {

/// The classes the pointer paths anchor in.
#[derive(Clone, Copy, PartialEq, Eq, Structural, Debug)]
pub enum ClassId {
    SceneManager,
    SystemUiRoot,
    StageStateManager,
    TimeAttackManager,
    BossSpooky,
    BossBase,
    PlayerManager,
    StageManager,
    PlayerPacman,
}

/// The fields the pointer paths walk through.
#[derive(Clone, Copy, PartialEq, Eq, Structural, Debug)]
pub enum FieldId {
    SInstance,
    BProcessing,
    SLoadingUi,
    ECurrentScene,
    CheckPointPriority,
    Time,
    Step,
    BonusTimeList,
    QteSuccess,
    State,
    Players,
}

/// The symbol each class carries in the target's type metadata.
pub open spec fn spec_class_symbol(c: ClassId) -> Seq<char> {
    match c {
        ClassId::SceneManager => "SceneManager"@,
        ClassId::SystemUiRoot => "SystemUIRoot"@,
        ClassId::StageStateManager => "StageStateManager"@,
        ClassId::TimeAttackManager => "TimeAttackManager"@,
        ClassId::BossSpooky => "BossSpooky"@,
        ClassId::BossBase => "BossBase"@,
        ClassId::PlayerManager => "PlayerManager"@,
        ClassId::StageManager => "StageManager"@,
        ClassId::PlayerPacman => "PlayerPacman"@,
    }
}

/// The symbol a class carries in the target's type metadata: what the
/// metadata collaborator looks the class up under.
pub fn class_symbol(c: ClassId) -> (r: &'static str)
    ensures
        r@ == spec_class_symbol(c),
{
    match c {
        ClassId::SceneManager => "SceneManager",
        ClassId::SystemUiRoot => "SystemUIRoot",
        ClassId::StageStateManager => "StageStateManager",
        ClassId::TimeAttackManager => "TimeAttackManager",
        ClassId::BossSpooky => "BossSpooky",
        ClassId::BossBase => "BossBase",
        ClassId::PlayerManager => "PlayerManager",
        ClassId::StageManager => "StageManager",
        ClassId::PlayerPacman => "PlayerPacman",
    }
}

/// The symbol each field carries in the target's type metadata.
pub open spec fn spec_field_symbol(f: FieldId) -> Seq<char> {
    match f {
        FieldId::SInstance => "s_sInstance"@,
        FieldId::BProcessing => "m_bProcessing"@,
        FieldId::SLoadingUi => "m_sLoadingUI"@,
        FieldId::ECurrentScene => "m_eCurrentScene"@,
        FieldId::CheckPointPriority => "m_checkPointPriority"@,
        FieldId::Time => "m_time"@,
        FieldId::Step => "m_step"@,
        FieldId::BonusTimeList => "m_bonusTimeList"@,
        FieldId::QteSuccess => "m_qteSuccess"@,
        FieldId::State => "m_state"@,
        FieldId::Players => "m_players"@,
    }
}

/// The symbol a field carries in the target's type metadata: what the
/// metadata collaborator looks the field up under.
pub fn field_symbol(f: FieldId) -> (r: &'static str)
    ensures
        r@ == spec_field_symbol(f),
{
    match f {
        FieldId::SInstance => "s_sInstance",
        FieldId::BProcessing => "m_bProcessing",
        FieldId::SLoadingUi => "m_sLoadingUI",
        FieldId::ECurrentScene => "m_eCurrentScene",
        FieldId::CheckPointPriority => "m_checkPointPriority",
        FieldId::Time => "m_time",
        FieldId::Step => "m_step",
        FieldId::BonusTimeList => "m_bonusTimeList",
        FieldId::QteSuccess => "m_qteSuccess",
        FieldId::State => "m_state",
        FieldId::Players => "m_players",
    }
}

/// One class's row in the metadata view: its static-field base address and
/// the byte offset of each known field.
#[derive(Clone, Debug)]
pub struct ClassMeta {
    pub class: ClassId,
    pub statics: u64,
    pub fields: Vec<(FieldId, u64)>,
}

/// The metadata view of the live target, rebuilt by the collaborator
/// whenever the target's layout may have changed; a later row shadows an
/// earlier one.
#[derive(Clone, Debug)]
pub struct Metadata {
    pub classes: Vec<ClassMeta>,
}

/// The last row for class `c`, if any.
pub open spec fn class_find(s: Seq<ClassMeta>, c: ClassId) -> Option<ClassMeta>
    decreases s.len(),
{
    if s.len() == 0 {
        None
    } else if s.last().class == c {
        Some(s.last())
    } else {
        class_find(s.drop_last(), c)
    }
}

/// If row `i` holds the class and no later row does, the lookup answers
/// row `i`.
proof fn lemma_class_find_at(s: Seq<ClassMeta>, c: ClassId, i: int)
    requires
        0 <= i < s.len(),
        s[i].class == c,
        forall|j: int| i < j < s.len() ==> s[j].class != c,
    ensures
        class_find(s, c) == Some(s[i]),
    decreases s.len(),
{
    if i == s.len() - 1 {
    } else {
        lemma_class_find_at(s.drop_last(), c, i);
    }
}

/// If no row holds the class, the lookup answers nothing.
proof fn lemma_class_find_none(s: Seq<ClassMeta>, c: ClassId)
    requires
        forall|j: int| 0 <= j < s.len() ==> s[j].class != c,
    ensures
        class_find(s, c) is None,
    decreases s.len(),
{
    if s.len() > 0 {
        lemma_class_find_none(s.drop_last(), c);
    }
}

impl Metadata {
    /// The static-field base address of class `c`, if the view knows the
    /// class.
    pub open spec fn spec_statics(self, c: ClassId) -> Option<u64> {
        match class_find(self.classes@, c) {
            Some(m) => Some(m.statics),
            None => None,
        }
    }

    /// The byte offset of field `f` in class `c`, if the view knows both.
    pub open spec fn spec_field_offset(self, c: ClassId, f: FieldId) -> Option<u64> {
        match class_find(self.classes@, c) {
            Some(m) => assoc_last(m.fields@, f),
            None => None,
        }
    }

    /// An empty view: every lookup fails, as before the target's metadata
    /// has loaded.
    pub fn new() -> (r: Metadata)
        ensures
            r.classes@.len() == 0,
            forall|c: ClassId| r.spec_statics(c) is None,
            forall|c: ClassId, f: FieldId| r.spec_field_offset(c, f) is None,
    {
        let r = Metadata { classes: Vec::new() };
        proof {
            assert forall|c: ClassId| r.spec_statics(c) is None by {
                lemma_class_find_none(r.classes@, c);
            }
            assert forall|c: ClassId, f: FieldId| r.spec_field_offset(c, f) is None by {
                lemma_class_find_none(r.classes@, c);
            }
        }
        r
    }

    /// The index of the last row for class `c`, scanning backwards.
    fn find_class_index(&self, c: ClassId) -> (r: Option<usize>)
        ensures
            match r {
                Some(i) => {
                    &&& i < self.classes@.len()
                    &&& class_find(self.classes@, c) == Some(self.classes@[i as int])
                },
                None => class_find(self.classes@, c) is None,
            },
    {
        let n = self.classes.len();
        let mut i: usize = n;
        while i > 0
            invariant
                i <= n,
                n == self.classes.len(),
                forall|j: int| i <= j < n ==> self.classes@[j].class != c,
            decreases i,
        {
            i = i - 1;
            if self.classes[i].class == c {
                proof {
                    lemma_class_find_at(self.classes@, c, i as int);
                }
                return Some(i);
            }
        }
        proof {
            lemma_class_find_none(self.classes@, c);
        }
        None
    }

    /// Looks up the static-field base address of class `c`.
    pub fn statics(&self, c: ClassId) -> (r: Option<u64>)
        ensures
            r == self.spec_statics(c),
    {
        match self.find_class_index(c) {
            Some(i) => Some(self.classes[i].statics),
            None => None,
        }
    }

    /// Looks up the byte offset of field `f` in class `c`. The lookup can
    /// fail on either name; the caller substitutes its documented default.
    pub fn field_offset(&self, c: ClassId, f: FieldId) -> (r: Option<u64>)
        ensures
            r == self.spec_field_offset(c, f),
    {
        let i = match self.find_class_index(c) {
            Some(i) => i,
            None => {
                return None;
            },
        };
        let row = &self.classes[i];
        let n = row.fields.len();
        let mut k: usize = n;
        while k > 0
            invariant
                k <= n,
                n == row.fields@.len(),
                class_find(self.classes@, c) == Some(*row),
                forall|j: int| k <= j < n ==> row.fields@[j].0 != f,
            decreases k,
        {
            k = k - 1;
            let entry = row.fields[k];
            if entry.0 == f {
                proof {
                    lemma_assoc_last_at(row.fields@, f, k as int);
                }
                return Some(entry.1);
            }
        }
        proof {
            lemma_assoc_last_none(row.fields@, f);
        }
        None
    }
}

} // verus!
