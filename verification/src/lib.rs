//! Metadata durability for an embedded key-value store.
//!
//! Two subsystems live here: the manifest, a durable record of the store's
//! allocation watermarks (highest file identifier issued, highest compaction
//! version observed) replayed through an idempotent, commutative merge fold;
//! and the write-ahead index, a dual-generation ordered view over recently
//! written byte keys in which an active generation shadows a sealed one.

use vstd::prelude::*;

pub mod error;
pub mod generic;
pub mod manifest;
pub mod options;
pub mod wal;

pub use generic::GenericDb;

verus! {

/// Identifier of a physical data segment: a monotonic 32-bit counter.
///
/// Values only grow within a store lifetime; `max` is the only combinator
/// ever applied across records, so identifiers merge as a semilattice.
#[derive(Clone, Copy, Debug, PartialEq, Eq, Structural, Hash)]
pub struct Fid(pub u32);

impl Fid {
    /// Returns the identifier that follows this one, leaving this one as is.
    pub fn next(&self) -> (r: Fid)
        requires
            self.0 < u32::MAX,
        ensures
            r.0 == self.0 + 1,
    {
        Fid(self.0 + 1)
    }

    /// Advances this identifier by one.
    pub fn next_assign(&mut self)
        requires
            old(self).0 < u32::MAX,
        ensures
            final(self).0 == old(self).0 + 1,
    {
        self.0 = self.0 + 1;
    }

    /// Returns the larger of the two identifiers.
    pub fn max(&self, other: Fid) -> (r: Fid)
        ensures
            r.0 == if self.0 >= other.0 { self.0 } else { other.0 },
    {
        if self.0 >= other.0 {
            Fid(self.0)
        } else {
            Fid(other.0)
        }
    }

    /// Replaces this identifier by the larger of the two.
    pub fn max_assign(&mut self, other: Fid)
        ensures
            final(self).0 == if old(self).0 >= other.0 { old(self).0 } else { other.0 },
    {
        if other.0 > self.0 {
            self.0 = other.0;
        }
    }
}

impl Default for Fid {
    /// The identifier a fresh store starts from.
    fn default() -> (r: Fid)
        ensures
            r.0 == 0,
    {
        Fid(0)
    }
}

} // verus!
