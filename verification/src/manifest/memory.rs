//! The volatile in-memory manifest backend.
//!
//! It keeps only the folded state: with no persisted log to compact it never
//! rewrites, and it participates in the snapshot abstraction by exporting a
//! single creation entry carrying the current watermark.

use vstd::prelude::*;

use crate::manifest::{
    default_record, fold_merged, merged, Manifest, ManifestEntry, ManifestRecord,
};
use crate::options::ManifestOptions;

verus! {

/// A manifest backend that records updates in memory only.
#[derive(Clone, Copy, Debug, PartialEq, Eq, Structural, Hash)]
pub struct MemoryManifest {
    /// The folded state and the options it was opened with.
    pub manifest: Manifest,
}

impl MemoryManifest {
    /// A fresh in-memory backend: the default watermark and the given
    /// options.
    pub fn new(opts: ManifestOptions) -> (r: MemoryManifest)
        ensures
            r.manifest.last == default_record(),
            r.manifest.opts == opts,
    {
        MemoryManifest { manifest: Manifest::new(opts) }
    }

    /// The in-memory backend has no persisted log to compact, so it never
    /// asks for a rewrite.
    pub fn should_rewrite(&self) -> (r: bool)
        ensures
            !r,
    {
        false
    }

    /// Records one update: folds the entry's record into the watermark.
    pub fn append(&mut self, entry: ManifestEntry)
        ensures
            final(self).manifest.last == merged(old(self).manifest.last, entry.data),
            final(self).manifest.opts == old(self).manifest.opts,
    {
        self.manifest.insert(entry);
    }

    /// Records a batch of updates: folds every entry's record into the
    /// watermark, in the order given.
    pub fn append_batch(&mut self, entries: Vec<ManifestEntry>)
        ensures
            final(self).manifest.last == fold_merged(
                old(self).manifest.last,
                entries@.map_values(|e: ManifestEntry| e.data),
            ),
            final(self).manifest.opts == old(self).manifest.opts,
    {
        self.manifest.insert_batch(entries);
    }

    /// The current folded watermark; a pure read that never fails.
    pub fn last_record(&self) -> (r: ManifestRecord)
        ensures
            r == self.manifest.last,
    {
        self.manifest.last
    }
}

} // verus!
