//! Configuration for opening a manifest file.

use vstd::prelude::*;

verus! {

/// The options for opening a manifest file.
///
/// Immutable once the manifest file is open: `version` is a schema tag
/// written at log creation and checked on reopen; `rewrite_threshold` and
/// `maximum_size` govern when the backing log is compacted.
#[derive(Clone, Copy, Debug, PartialEq, Eq, Structural, Hash)]
pub struct ManifestOptions {
    /// The schema version of the manifest file. Default is `0`.
    pub version: u16,
    /// The rewrite threshold for the manifest file. Default is `10000`.
    ///
    /// If the manifest file exceeds this threshold, it will be rewritten.
    pub rewrite_threshold: usize,
    /// The maximum size in bytes for the manifest file. Default is `1024`.
    ///
    /// If the manifest file exceeds this size, it will be rewritten.
    pub maximum_size: usize,
}

impl ManifestOptions {
    /// Creates manifest options holding the default values.
    pub fn new() -> (r: ManifestOptions)
        ensures
            r.version == 0,
            r.rewrite_threshold == 10000,
            r.maximum_size == 1024,
    {
        ManifestOptions { version: 0, rewrite_threshold: 10000, maximum_size: 1024 }
    }

    /// Returns the schema version of the manifest file.
    pub fn version(&self) -> (r: u16)
        ensures
            r == self.version,
    {
        self.version
    }

    /// Returns the rewrite threshold for the manifest file.
    pub fn rewrite_threshold(&self) -> (r: usize)
        ensures
            r == self.rewrite_threshold,
    {
        self.rewrite_threshold
    }

    /// Returns the maximum size in bytes for the manifest file.
    pub fn maximum_size(&self) -> (r: usize)
        ensures
            r == self.maximum_size,
    {
        self.maximum_size
    }

    /// Sets the schema version of the manifest file.
    pub fn with_version(self, version: u16) -> (r: ManifestOptions)
        ensures
            r == (ManifestOptions { version, ..self }),
    {
        ManifestOptions { version, ..self }
    }

    /// Sets the rewrite threshold for the manifest file.
    pub fn with_rewrite_threshold(self, rewrite_threshold: usize) -> (r: ManifestOptions)
        ensures
            r == (ManifestOptions { rewrite_threshold, ..self }),
    {
        ManifestOptions { rewrite_threshold, ..self }
    }

    /// Sets the maximum size in bytes for the manifest file.
    pub fn with_maximum_size(self, maximum_size: usize) -> (r: ManifestOptions)
        ensures
            r == (ManifestOptions { maximum_size, ..self }),
    {
        ManifestOptions { maximum_size, ..self }
    }
}

impl Default for ManifestOptions {
    /// The default options: version `0`, rewrite threshold `10000`, maximum
    /// size `1024` bytes.
    fn default() -> (r: ManifestOptions)
        ensures
            r == (ManifestOptions { version: 0, rewrite_threshold: 10000, maximum_size: 1024 }),
    {
        ManifestOptions::new()
    }
}

} // verus!
