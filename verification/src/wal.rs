//! The write-ahead index: a dual-generation ordered view over recent keys.
//!
//! Byte keys tagged with a version live in ordered index generations backed
//! by skl's lock-free skipmap. A sealed generation (`old`) and an optional
//! active one (`latest`) exist side by side so that a background process can
//! seal and flush one generation while new writes land in a fresh one; the
//! read path only checks whether an active generation is installed and
//! prefers it, never merging entries across the two.

use vstd::prelude::*;

use skl::dynamic::multiple_version::sync::SkipMap;

verus! {

/// The version tag at which this index resolves its keys.
pub const VERSION0: u64 = 0;

/// Declares skl's multiple-version `SkipMap` so index generations can be
/// held and passed around; its contents are reachable only through the
/// trusted readers below.
#[verifier::external_type_specification]
#[verifier::external_body]
#[verifier::reject_recursive_types(C)]
pub struct ExSkipMap<C>(SkipMap<C>);

/// Declares skl's `Ascend`, the default byte-wise ascending comparator the
/// index orders its keys under.
#[verifier::external_type_specification]
#[verifier::external_body]
pub struct ExAscend(skl::dynamic::Ascend);

/// The live entries an index generation holds at version [`VERSION0`]: each
/// present key mapped to its value bytes. A generation held by a [`Wal`] is
/// read-only, so its entries are a function of the map value alone.
pub uninterp spec fn index_entries(m: SkipMap) -> Map<Seq<u8>, Seq<u8>>;

/// An owned copy of one index entry: the key, its value, and the version
/// tag it resolved at.
#[derive(Clone, Debug)]
pub struct WalEntry {
    /// The key bytes.
    pub key: Vec<u8>,
    /// The value bytes.
    pub value: Vec<u8>,
    /// The version the entry was written at.
    pub version: u64,
}

/// Relies on skl's `Map::contains_key`: true exactly when the map holds a
/// live entry for the key at the queried version.
#[verifier::external_body]
fn index_contains_key(m: &SkipMap, key: &[u8]) -> (r: bool)
    ensures
        r == index_entries(*m).dom().contains(key@),
{
    skl::dynamic::multiple_version::Map::contains_key(m, VERSION0, key)
}

/// Relies on skl's `Map::get`: returns the live entry for the key at the
/// queried version, or nothing when the key is absent. An entry visible at
/// version 0 can only have been written at version 0.
#[verifier::external_body]
fn index_get(m: &SkipMap, key: &[u8]) -> (r: Option<WalEntry>)
    ensures
        r matches Some(e) ==> e.key@ == key@ && e.value@ == index_entries(*m)[key@] && e.version
            == VERSION0,
        (r is Some) == index_entries(*m).dom().contains(key@),
{
    skl::dynamic::multiple_version::Map::get(m, VERSION0, key).map(
        |ent| WalEntry { key: ent.key().to_vec(), value: ent.value().to_vec(), version: ent.version() },
    )
}

/// The dual-generation index: a sealed `old` generation and, when one is
/// installed, an active `latest` generation that fully shadows it.
///
/// The index itself never decides when to rotate; the owner seals and
/// replaces generations, and this structure only resolves reads against the
/// current split.
pub struct Wal {
    /// The previously active, now sealed generation.
    pub old: SkipMap,
    /// The currently active generation, if one is installed.
    pub latest: Option<SkipMap>,
}

impl Wal {
    /// The entries reads resolve against: those of `latest` whenever it is
    /// installed, else those of `old`.
    pub open spec fn current(self) -> Map<Seq<u8>, Seq<u8>> {
        match self.latest {
            Some(l) => index_entries(l),
            None => index_entries(self.old),
        }
    }

    /// An index over a sealed generation and, optionally, an active one.
    pub fn new(sealed: SkipMap, active: Option<SkipMap>) -> (r: Wal)
        ensures
            r.old == sealed,
            r.latest == active,
    {
        Wal { old: sealed, latest: active }
    }

    /// Returns `true` if the authoritative generation holds `key`.
    pub fn contains(&self, key: &[u8]) -> (r: bool)
        ensures
            r == self.current().dom().contains(key@),
    {
        index_contains_key(self.map(), key)
    }

    /// Returns an owned copy of the entry for `key` from the authoritative
    /// generation, or `None` when it is absent from it.
    pub fn get(&self, key: &[u8]) -> (r: Option<WalEntry>)
        ensures
            r matches Some(e) ==> e.key@ == key@ && e.value@ == self.current()[key@] && e.version
                == VERSION0,
            (r is Some) == self.current().dom().contains(key@),
    {
        index_get(self.map(), key)
    }

    /// The generation reads resolve against: `latest` takes precedence over
    /// `old` whenever it is set. This is the entire read-path rule.
    fn map(&self) -> (r: &SkipMap)
        ensures
            index_entries(*r) == self.current(),
    {
        match &self.latest {
            Some(l) => l,
            None => &self.old,
        }
    }
}

/// The resolution law of the dual-generation split: while an active
/// generation is installed every read resolves against it alone, and with
/// none installed the sealed generation is authoritative.
pub proof fn lemma_wal_precedence(w: Wal)
    ensures
        w.latest matches Some(l) ==> w.current() == index_entries(l),
        w.latest is None ==> w.current() == index_entries(w.old),
{
}

} // verus!
