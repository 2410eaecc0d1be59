//! The dynamic pointer-path resolver.
//!
//! A symbolic pointer path — an anchor class, its static singleton field,
//! and a chain of instance field names — resolves to a concrete address in
//! two composable stages: the metadata stage maps the names to byte
//! offsets, and the chase stage follows those offsets through the per-tick
//! memory view. Every failure mode is non-fatal and yields "unresolved":
//! unknown class or field names, an unreadable word, or a null pointer on
//! the way. The backing object graph is relocatable, so paths are resolved
//! afresh from the current view every tick; the one exception is the
//! deliberate per-level offset cache of [`PathCache`], invalidated only on
//! its explicit trigger.
use vstd::prelude::*;

use crate::mem_table::MemTable;
use crate::metadata::ClassId;
use crate::metadata::FieldId;
use crate::metadata::Metadata;

verus! {

/// Addition of an address and a byte offset, wrapping around the 64-bit
/// address space.
pub open spec fn spec_wrap_add(a: u64, b: u64) -> u64 {
    ((a + b) % 0x1_0000_0000_0000_0000) as u64
}

/// Adds a byte offset to an address, wrapping.
pub fn wrap_add_u64(a: u64, b: u64) -> (r: u64)
    ensures
        r == spec_wrap_add(a, b),
{
    let wide: u128 = a as u128 + b as u128;
    (wide % 0x1_0000_0000_0000_0000u128) as u64
}

/// A symbolic pointer path: the anchor class and the ordered field chain,
/// the first field being the class's static singleton field.
#[derive(Clone, Debug)]
pub struct PointerPath {
    pub class: ClassId,
    pub fields: Vec<FieldId>,
}

/// A path after its metadata stage: the anchor class's static base address
/// and one byte offset per field of the chain.
#[derive(Clone, Debug)]
pub struct OffsetChain {
    pub statics: u64,
    pub offsets: Vec<u64>,
}

/// The offsets the metadata assigns to a field chain of class `c`, if it
/// knows every name.
pub open spec fn spec_field_offsets(meta: Metadata, c: ClassId, fields: Seq<FieldId>) -> Option<
    Seq<u64>,
>
    decreases fields.len(),
{
    if fields.len() == 0 {
        Some(Seq::<u64>::empty())
    } else {
        match spec_field_offsets(meta, c, fields.drop_last()) {
            Some(pre) => match meta.spec_field_offset(c, fields.last()) {
                Some(o) => Some(pre.push(o)),
                None => None,
            },
            None => None,
        }
    }
}

/// Known offsets are one-for-one with the chain's fields.
pub proof fn lemma_field_offsets_len(meta: Metadata, c: ClassId, fields: Seq<FieldId>)
    requires
        spec_field_offsets(meta, c, fields) is Some,
    ensures
        spec_field_offsets(meta, c, fields)->Some_0.len() == fields.len(),
    decreases fields.len(),
{
    if fields.len() > 0 {
        lemma_field_offsets_len(meta, c, fields.drop_last());
    }
}

/// Whether the metadata stage succeeds: the chain is non-empty and the
/// metadata knows the class and every field name.
pub open spec fn spec_derive_ok(path: PointerPath, meta: Metadata) -> bool {
    &&& path.fields.len() > 0
    &&& meta.spec_statics(path.class) is Some
    &&& spec_field_offsets(meta, path.class, path.fields@) is Some
}

/// The static base the metadata stage yields.
pub open spec fn spec_derived_statics(path: PointerPath, meta: Metadata) -> u64 {
    meta.spec_statics(path.class)->Some_0
}

/// The offsets the metadata stage yields.
pub open spec fn spec_derived_offsets(path: PointerPath, meta: Metadata) -> Seq<u64> {
    spec_field_offsets(meta, path.class, path.fields@)->Some_0
}

/// Whether a derived chain is exactly what the metadata stage yields for
/// `path` under `meta`.
pub open spec fn chain_matches(chain: OffsetChain, path: PointerPath, meta: Metadata) -> bool {
    &&& spec_derive_ok(path, meta)
    &&& chain.statics == spec_derived_statics(path, meta)
    &&& chain.offsets@ == spec_derived_offsets(path, meta)
}

/// The metadata stage of resolution: maps the path's symbolic names to the
/// byte offsets the live type metadata assigns them. Fails, non-fatally,
/// when the metadata does not (yet) know a name.
pub fn derive_offsets(path: &PointerPath, meta: &Metadata) -> (r: Option<OffsetChain>)
    ensures
        match r {
            Some(chain) => chain_matches(chain, *path, *meta),
            None => !spec_derive_ok(*path, *meta),
        },
{
    let n = path.fields.len();
    if n == 0 {
        return None;
    }
    let statics = match meta.statics(path.class) {
        Some(st) => st,
        None => {
            return None;
        },
    };
    let mut offsets: Vec<u64> = Vec::new();
    let mut i: usize = 0;
    while i < n
        invariant
            i <= n,
            n == path.fields@.len(),
            Some(offsets@) == spec_field_offsets(*meta, path.class, path.fields@.take(i as int)),
        decreases n - i,
    {
        let o = match meta.field_offset(path.class, path.fields[i]) {
            Some(o) => o,
            None => {
                proof {
                    lemma_field_offsets_prefix_none(*meta, path.class, path.fields@, i as int);
                }
                return None;
            },
        };
        offsets.push(o);
        i = i + 1;
        proof {
            assert(path.fields@.take(i as int).drop_last() =~= path.fields@.take(i - 1));
            assert(path.fields@.take(i as int).last() == path.fields@[i - 1]);
        }
    }
    proof {
        assert(path.fields@.take(n as int) =~= path.fields@);
    }
    Some(OffsetChain { statics, offsets })
}

/// If the offset of the field at index `i` is unknown, the whole chain's
/// offsets are unknown.
proof fn lemma_field_offsets_prefix_none(meta: Metadata, c: ClassId, fields: Seq<FieldId>, i: int)
    requires
        0 <= i < fields.len(),
        meta.spec_field_offset(c, fields[i]) is None,
    ensures
        spec_field_offsets(meta, c, fields) is None,
    decreases fields.len(),
{
    if fields.len() > 0 && i < fields.len() - 1 {
        lemma_field_offsets_prefix_none(meta, c, fields.drop_last(), i);
    }
}

/// The chase stage from an already-computed address: `a` is the address of
/// the next pointer to follow, `offsets` the offsets still to apply. An
/// unreadable word or a null pointer leaves the walk unresolved.
pub open spec fn spec_chase_from(a: u64, offsets: Seq<u64>, mem: MemTable) -> Option<u64>
    decreases offsets.len(),
{
    if offsets.len() == 0 {
        Some(a)
    } else {
        match mem.spec_get(a) {
            Some(v) => if v == 0 {
                None
            } else {
                spec_chase_from(spec_wrap_add(v, offsets[0]), offsets.drop_first(), mem)
            },
            None => None,
        }
    }
}

/// The chase stage over a derived static base and offset sequence.
pub open spec fn spec_resolve_with(statics: u64, offsets: Seq<u64>, mem: MemTable) -> Option<u64> {
    if offsets.len() == 0 {
        None
    } else {
        spec_chase_from(spec_wrap_add(statics, offsets[0]), offsets.drop_first(), mem)
    }
}

/// The chase stage over a derived chain. The answer depends only on the
/// chain's static base and offset values.
pub open spec fn spec_chase(chain: OffsetChain, mem: MemTable) -> Option<u64> {
    spec_resolve_with(chain.statics, chain.offsets@, mem)
}

/// The chase stage of resolution: follows the derived offsets through this
/// tick's memory view, starting at the class's static base, and answers
/// the final address. Fails, non-fatally, on an unreadable word or a null
/// pointer.
pub fn chase(chain: &OffsetChain, mem: &MemTable) -> (r: Option<u64>)
    ensures
        r == spec_chase(*chain, *mem),
{
    let n = chain.offsets.len();
    if n == 0 {
        return None;
    }
    let mut a: u64 = wrap_add_u64(chain.statics, chain.offsets[0]);
    let mut i: usize = 1;
    while i < n
        invariant
            1 <= i <= n,
            n == chain.offsets@.len(),
            spec_chase(*chain, *mem) == spec_chase_from(a, chain.offsets@.skip(i as int), *mem),
        decreases n - i,
    {
        proof {
            assert(chain.offsets@.skip(i as int)[0] == chain.offsets@[i as int]);
            assert(chain.offsets@.skip(i as int).drop_first() =~= chain.offsets@.skip(i + 1));
        }
        let v = match mem.read_u64(a) {
            Some(v) => v,
            None => {
                return None;
            },
        };
        if v == 0 {
            return None;
        }
        a = wrap_add_u64(v, chain.offsets[i]);
        i = i + 1;
    }
    proof {
        assert(chain.offsets@.skip(n as int).len() == 0);
    }
    Some(a)
}

/// What `resolve` answers: the two stages composed.
pub open spec fn spec_resolve(path: PointerPath, meta: Metadata, mem: MemTable) -> Option<u64> {
    if spec_derive_ok(path, meta) {
        spec_resolve_with(spec_derived_statics(path, meta), spec_derived_offsets(path, meta), mem)
    } else {
        None
    }
}

/// Resolves a symbolic pointer path against the live metadata and this
/// tick's memory view: the metadata stage then the chase stage. Every
/// failure — names not (yet) known, an unreadable word, a null pointer —
/// answers `None`, and the caller substitutes its documented default.
pub fn resolve(path: &PointerPath, meta: &Metadata, mem: &MemTable) -> (r: Option<u64>)
    ensures
        r == spec_resolve(*path, *meta, *mem),
{
    match derive_offsets(path, meta) {
        Some(chain) => chase(&chain, mem),
        None => None,
    }
}

/// The first address along the walk that the memory view does not hold:
/// what the collaborator should read next to let this path make progress.
pub open spec fn spec_missing_from(a: u64, offsets: Seq<u64>, mem: MemTable) -> Option<u64>
    decreases offsets.len(),
{
    match mem.spec_get(a) {
        None => Some(a),
        Some(v) => if offsets.len() == 0 {
            None
        } else if v == 0 {
            None
        } else {
            spec_missing_from(spec_wrap_add(v, offsets[0]), offsets.drop_first(), mem)
        },
    }
}

/// What `next_missing` answers: `None` when the walk needs no further read
/// — because it completed (its final address included), failed in
/// metadata, or died on a null pointer.
pub open spec fn spec_next_missing(path: PointerPath, meta: Metadata, mem: MemTable) -> Option<
    u64,
> {
    if spec_derive_ok(path, meta) {
        spec_missing_from(
            spec_wrap_add(spec_derived_statics(path, meta), spec_derived_offsets(path, meta)[0]),
            spec_derived_offsets(path, meta).drop_first(),
            mem,
        )
    } else {
        None
    }
}

/// Reports the first address along this path's walk that the memory view
/// does not hold yet, the path's final address included, so the
/// collaborator can read it and try again; `None` once no further read can
/// help the path.
pub fn next_missing(path: &PointerPath, meta: &Metadata, mem: &MemTable) -> (r: Option<u64>)
    ensures
        r == spec_next_missing(*path, *meta, *mem),
        r is Some ==> mem.spec_get(r->Some_0) is None,
{
    let chain = match derive_offsets(path, meta) {
        Some(chain) => chain,
        None => {
            return None;
        },
    };
    proof {
        lemma_field_offsets_len(*meta, path.class, path.fields@);
    }
    let n = chain.offsets.len();
    let mut a: u64 = wrap_add_u64(chain.statics, chain.offsets[0]);
    let mut i: usize = 1;
    loop
        invariant
            1 <= i <= n,
            n == chain.offsets@.len(),
            spec_next_missing(*path, *meta, *mem) == spec_missing_from(
                a,
                chain.offsets@.skip(i as int),
                *mem,
            ),
        ensures
            spec_next_missing(*path, *meta, *mem) == match mem.spec_get(a) {
                None => Some(a),
                Some(v) => None,
            },
            mem.spec_get(a) is Some,
        decreases n - i,
    {
        proof {
            if i < n {
                assert(chain.offsets@.skip(i as int)[0] == chain.offsets@[i as int]);
                assert(chain.offsets@.skip(i as int).drop_first() =~= chain.offsets@.skip(i + 1));
            } else {
                assert(chain.offsets@.skip(i as int).len() == 0);
            }
        }
        let v = match mem.read_u64(a) {
            Some(v) => v,
            None => {
                return Some(a);
            },
        };
        if i == n || v == 0 {
            break ;
        }
        a = wrap_add_u64(v, chain.offsets[i]);
        i = i + 1;
    }
    None
}

/// Along one walk step, "no read missing" carries down to the chase: if
/// the walk reports nothing to read and reaches a final address, that
/// address is readable.
proof fn lemma_missing_from_complete(a: u64, offsets: Seq<u64>, mem: MemTable)
    requires
        spec_missing_from(a, offsets, mem) is None,
    ensures
        match spec_chase_from(a, offsets, mem) {
            Some(f) => mem.spec_get(f) is Some,
            None => true,
        },
    decreases offsets.len(),
{
    if offsets.len() > 0 {
        match mem.spec_get(a) {
            Some(v) => {
                if v != 0 {
                    lemma_missing_from_complete(
                        spec_wrap_add(v, offsets[0]),
                        offsets.drop_first(),
                        mem,
                    );
                }
            },
            None => {},
        }
    }
}

/// The fill-completeness law: once a path's walk reports no further read —
/// the collaborator's fill loop has finished — a successful resolution
/// lands on an address the view holds, so the dependent value read cannot
/// fail for want of another fill round.
pub proof fn lemma_fill_complete(path: PointerPath, meta: Metadata, mem: MemTable)
    requires
        spec_next_missing(path, meta, mem) is None,
    ensures
        match spec_resolve(path, meta, mem) {
            Some(a) => mem.spec_get(a) is Some,
            None => true,
        },
{
    if spec_derive_ok(path, meta) {
        lemma_missing_from_complete(
            spec_wrap_add(spec_derived_statics(path, meta), spec_derived_offsets(path, meta)[0]),
            spec_derived_offsets(path, meta).drop_first(),
            mem,
        );
    }
}

/// A pointer path with a deliberately cached metadata stage.
///
/// Most paths are re-derived from metadata every tick; a few anchor in
/// per-level object instances, so their offsets are recomputed only on an
/// explicit trigger — a level-identifier change — and cached between
/// triggers.
#[derive(Clone, Debug)]
pub struct PathCache {
    pub path: PointerPath,
    pub chain: Option<OffsetChain>,
}

/// What resolving through a cache answers: the chase over the cached
/// offsets if they are held, the full two-stage resolution otherwise.
pub open spec fn spec_cached_resolve(cache: PathCache, meta: Metadata, mem: MemTable) -> Option<
    u64,
> {
    match cache.chain {
        Some(chain) => spec_chase(chain, mem),
        None => spec_resolve(cache.path, meta, mem),
    }
}

/// How a deliberately cached path evolves across one tick: the path never
/// changes; the cached offsets are dropped when this tick's invalidation
/// trigger fired, kept otherwise, and — when the tick resolved through the
/// cache — filled from the then-current metadata if they were empty. This
/// is the narrow, explicitly triggered cache of the resolver: between
/// triggers the offsets persist unchanged, and a fill is exactly the
/// metadata stage of the cached path.
pub open spec fn cache_evolved(
    oldc: PathCache,
    newc: PathCache,
    invalidated: bool,
    filled: bool,
    meta: Metadata,
) -> bool {
    &&& newc.path == oldc.path
    &&& ({
        let mid = if invalidated {
            None::<OffsetChain>
        } else {
            oldc.chain
        };
        if filled {
            match mid {
                Some(chain) => newc.chain == Some(chain),
                None => match newc.chain {
                    Some(chain) => chain_matches(chain, oldc.path, meta),
                    None => !spec_derive_ok(oldc.path, meta),
                },
            }
        } else {
            newc.chain == mid
        }
    })
}

impl PathCache {
    /// A cache over `path` with its metadata stage not yet derived.
    pub fn new(path: PointerPath) -> (r: PathCache)
        ensures
            r.path == path,
            r.chain is None,
    {
        PathCache { path, chain: None }
    }

    /// The explicit invalidation trigger: drops the cached offsets so the
    /// next resolution re-derives them from the then-current metadata.
    pub fn invalidate(&mut self)
        ensures
            final(self).path == old(self).path,
            final(self).chain is None,
    {
        self.chain = None;
    }

    /// Resolves through the cache: derives and caches the metadata stage
    /// if it is not cached yet, then chases through this tick's memory
    /// view.
    pub fn resolve_cached(&mut self, meta: &Metadata, mem: &MemTable) -> (r: Option<u64>)
        ensures
            final(self).path == old(self).path,
            old(self).chain is Some ==> final(self).chain == old(self).chain,
            old(self).chain is None ==> match final(self).chain {
                Some(chain) => chain_matches(chain, old(self).path, *meta),
                None => !spec_derive_ok(old(self).path, *meta),
            },
            r == spec_cached_resolve(*old(self), *meta, *mem),
    {
        if self.chain.is_none() {
            self.chain = derive_offsets(&self.path, meta);
        }
        match &self.chain {
            Some(chain) => chase(chain, mem),
            None => None,
        }
    }
}

} // verus!
