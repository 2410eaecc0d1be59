//! The per-tick memory view.
//!
//! The process-attachment collaborator owns the raw byte reads; what the
//! library sees of the target's memory in one tick is this table of 64-bit
//! words keyed by address. An address the table does not hold reads as a
//! failure, exactly as an unreadable address does in the live process, and
//! every narrower typed read takes the low bits of the word at its address.
use vstd::prelude::*;

use crate::lookup::assoc_last;
use crate::lookup::lemma_assoc_last_at;
use crate::lookup::lemma_assoc_last_none;
use crate::lookup::lemma_assoc_last_push;

verus! {

/// One tick's view of the target's memory: 64-bit words keyed by address,
/// a later entry shadowing an earlier one.
#[derive(Clone, Debug)]
pub struct MemTable {
    pub entries: Vec<(u64, u64)>,
}

impl MemTable {
    /// The word the table holds at `a`, if any.
    pub open spec fn spec_get(self, a: u64) -> Option<u64> {
        assoc_last(self.entries@, a)
    }

    /// The low 32 bits of the word at `a`, if any.
    pub open spec fn spec_get_u32(self, a: u64) -> Option<u32> {
        match self.spec_get(a) {
            Some(v) => Some((v % 0x1_0000_0000) as u32),
            None => None,
        }
    }

    /// The low 32 bits of the word at `a` reinterpreted as a signed value,
    /// if any.
    pub open spec fn spec_get_i32(self, a: u64) -> Option<i32> {
        match self.spec_get_u32(a) {
            Some(v) => Some(
                if v >= 0x8000_0000 {
                    (v - 0x1_0000_0000) as i32
                } else {
                    v as i32
                },
            ),
            None => None,
        }
    }

    /// The low byte of the word at `a` read as a boolean, if any.
    pub open spec fn spec_get_bool(self, a: u64) -> Option<bool> {
        match self.spec_get(a) {
            Some(v) => Some(v % 0x100 != 0),
            None => None,
        }
    }

    /// An empty view: every address reads as a failure.
    pub fn new() -> (r: MemTable)
        ensures
            forall|a: u64| r.spec_get(a) is None,
    {
        let r = MemTable { entries: Vec::new() };
        proof {
            assert forall|a: u64| r.spec_get(a) is None by {
                lemma_assoc_last_none(r.entries@, a);
            }
        }
        r
    }

    /// Records the word read at `a`, shadowing any earlier entry.
    pub fn insert(&mut self, a: u64, v: u64)
        ensures
            final(self).spec_get(a) == Some(v),
            forall|b: u64| b != a ==> final(self).spec_get(b) == old(self).spec_get(b),
    {
        self.entries.push((a, v));
        proof {
            assert forall|b: u64| b != a implies self.spec_get(b) == old(self).spec_get(b) by {
                lemma_assoc_last_push(old(self).entries@, a, v, b);
            }
            lemma_assoc_last_push(old(self).entries@, a, v, a);
        }
    }

    /// Reads the 64-bit word at `a`.
    pub fn read_u64(&self, a: u64) -> (r: Option<u64>)
        ensures
            r == self.spec_get(a),
    {
        let n = self.entries.len();
        let mut i: usize = n;
        while i > 0
            invariant
                i <= n,
                n == self.entries.len(),
                forall|j: int| i <= j < n ==> self.entries@[j].0 != a,
            decreases i,
        {
            i = i - 1;
            let entry = self.entries[i];
            if entry.0 == a {
                proof {
                    lemma_assoc_last_at(self.entries@, a, i as int);
                }
                return Some(entry.1);
            }
        }
        proof {
            lemma_assoc_last_none(self.entries@, a);
        }
        None
    }

    /// Reads the low 32 bits of the word at `a`.
    pub fn read_u32(&self, a: u64) -> (r: Option<u32>)
        ensures
            r == self.spec_get_u32(a),
    {
        match self.read_u64(a) {
            Some(v) => Some((v % 0x1_0000_0000) as u32),
            None => None,
        }
    }

    /// Reads the low 32 bits of the word at `a` as a signed value.
    pub fn read_i32(&self, a: u64) -> (r: Option<i32>)
        ensures
            r == self.spec_get_i32(a),
    {
        match self.read_u32(a) {
            Some(v) => {
                let wide: i64 = v as i64;
                if wide >= 0x8000_0000 {
                    Some((wide - 0x1_0000_0000) as i32)
                } else {
                    Some(wide as i32)
                }
            },
            None => None,
        }
    }

    /// Reads the low byte of the word at `a` as a boolean.
    pub fn read_bool(&self, a: u64) -> (r: Option<bool>)
        ensures
            r == self.spec_get_bool(a),
    {
        match self.read_u64(a) {
            Some(v) => Some(v % 0x100 != 0),
            None => None,
        }
    }
}

} // verus!
