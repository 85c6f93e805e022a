//! The manifest: a durable record of the store's allocation watermarks.
//!
//! A [`ManifestRecord`] is the fixed-width unit appended to the manifest log.
//! Replay folds every logged record into one watermark through [`merged`], a
//! commutative, associative, idempotent merge, so a log with duplicated or
//! reordered entries always folds to the same state.

use vstd::prelude::*;
use vstd::bytes::{
    lemma_auto_spec_u32_to_from_le_bytes, lemma_auto_spec_u64_to_from_le_bytes,
    spec_u32_from_le_bytes, spec_u32_to_le_bytes, spec_u64_from_le_bytes, spec_u64_to_le_bytes,
    u32_from_le_bytes, u32_to_le_bytes, u64_from_le_bytes, u64_to_le_bytes,
};
use vstd::slice::slice_subrange;

use crate::error::{ManifestError, ManifestRecordError};
use crate::options::ManifestOptions;
use crate::manifest::memory::MemoryManifest;
use crate::Fid;

pub mod memory;

verus! {

/// The number of bytes a manifest record always encodes to: a 4-byte
/// little-endian file identifier followed by an 8-byte little-endian
/// compaction version.
pub const ENCODED_SIZE: usize = 12;

/// The ceiling against which a configured rewrite threshold is checked by
/// the disk rewrite policy.
pub const MANIFEST_REWRITE_THRESHOLD: usize = 10000;

/// The watermark state of the store: the newest file identifier ever
/// allocated and the newest compaction generation ever completed.
#[derive(Clone, Copy, Debug, PartialEq, Eq, Structural, Hash)]
pub struct ManifestRecord {
    /// The highest file identifier issued.
    pub last_fid: Fid,
    /// The highest compaction version observed.
    pub last_compact_version: u64,
}

/// The record a fresh store starts from: file identifier `0`, compaction
/// version `0`.
pub open spec fn default_record() -> ManifestRecord {
    ManifestRecord { last_fid: Fid(0), last_compact_version: 0 }
}

/// The 12-byte little-endian encoding of a record.
pub open spec fn spec_encode(r: ManifestRecord) -> Seq<u8> {
    spec_u32_to_le_bytes(r.last_fid.0) + spec_u64_to_le_bytes(r.last_compact_version)
}

/// The record held in the first 12 bytes of `s`.
pub open spec fn spec_decode(s: Seq<u8>) -> ManifestRecord
    recommends
        s.len() >= ENCODED_SIZE,
{
    ManifestRecord {
        last_fid: Fid(spec_u32_from_le_bytes(s.subrange(0, 4))),
        last_compact_version: spec_u64_from_le_bytes(s.subrange(4, 12)),
    }
}

impl ManifestRecord {
    /// Returns the number of bytes [`Self::encode`] writes: always 12, since
    /// the record has no variable-length field.
    pub fn encoded_size(&self) -> (r: usize)
        ensures
            r == ENCODED_SIZE,
            spec_encode(*self).len() == ENCODED_SIZE,
    {
        proof {
            lemma_auto_spec_u32_to_from_le_bytes();
            lemma_auto_spec_u64_to_from_le_bytes();
        }
        ENCODED_SIZE
    }

    /// Encodes the record into the first 12 bytes of `buf`, leaving the rest
    /// of the buffer as it was, and returns the number of bytes written.
    ///
    /// Fails, leaving `buf` untouched, exactly when `buf` is shorter than the
    /// encoded size.
    pub fn encode(&self, buf: &mut Vec<u8>) -> (r: Result<usize, ManifestRecordError>)
        ensures
            old(buf).len() < ENCODED_SIZE ==> r == Err::<usize, ManifestRecordError>(
                ManifestRecordError::EncodeBufferTooSmall,
            ) && final(buf)@ == old(buf)@,
            old(buf).len() >= ENCODED_SIZE ==> r == Ok::<usize, ManifestRecordError>(ENCODED_SIZE)
                && final(buf)@ == spec_encode(*self) + old(buf)@.skip(ENCODED_SIZE as int),
    {
        if buf.len() < ENCODED_SIZE {
            return Err(ManifestRecordError::EncodeBufferTooSmall);
        }
        let fid_bytes = u32_to_le_bytes(self.last_fid.0);
        let version_bytes = u64_to_le_bytes(self.last_compact_version);
        proof {
            lemma_auto_spec_u32_to_from_le_bytes();
            lemma_auto_spec_u64_to_from_le_bytes();
        }
        let mut i: usize = 0;
        while i < 4
            invariant
                0 <= i <= 4,
                fid_bytes@.len() == 4,
                version_bytes@.len() == 8,
                buf@.len() == old(buf)@.len(),
                old(buf)@.len() >= ENCODED_SIZE,
                forall|j: int| 0 <= j < i ==> buf@[j] == fid_bytes@[j],
                forall|j: int| i <= j < buf@.len() ==> buf@[j] == old(buf)@[j],
            decreases 4 - i,
        {
            let b = fid_bytes[i];
            buf[i] = b;
            i = i + 1;
        }
        let mut k: usize = 0;
        while k < 8
            invariant
                0 <= k <= 8,
                fid_bytes@.len() == 4,
                version_bytes@.len() == 8,
                buf@.len() == old(buf)@.len(),
                old(buf)@.len() >= ENCODED_SIZE,
                forall|j: int| 0 <= j < 4 ==> buf@[j] == fid_bytes@[j],
                forall|j: int| 4 <= j < 4 + k ==> buf@[j] == version_bytes@[j - 4],
                forall|j: int| 4 + k <= j < buf@.len() ==> buf@[j] == old(buf)@[j],
            decreases 8 - k,
        {
            let b = version_bytes[k];
            buf[4 + k] = b;
            k = k + 1;
        }
        proof {
            assert(buf@ =~= spec_encode(*self) + old(buf)@.skip(ENCODED_SIZE as int));
        }
        Ok(ENCODED_SIZE)
    }

    /// Decodes a record from the first 12 bytes of `buf`, returning it with
    /// the number of bytes read.
    ///
    /// Fails exactly when `buf` holds fewer bytes than the encoded size.
    pub fn decode(buf: &[u8]) -> (r: Result<(usize, ManifestRecord), ManifestRecordError>)
        ensures
            buf@.len() < ENCODED_SIZE ==> r == Err::<(usize, ManifestRecord), ManifestRecordError>(
                ManifestRecordError::NotEnoughBytes,
            ),
            buf@.len() >= ENCODED_SIZE ==> r == Ok::<(usize, ManifestRecord), ManifestRecordError>(
                (ENCODED_SIZE, spec_decode(buf@)),
            ),
    {
        if buf.len() < ENCODED_SIZE {
            return Err(ManifestRecordError::NotEnoughBytes);
        }
        let fid_bytes = slice_subrange(buf, 0, 4);
        let version_bytes = slice_subrange(buf, 4, 12);
        let fid = u32_from_le_bytes(fid_bytes);
        let version = u64_from_le_bytes(version_bytes);
        Ok((ENCODED_SIZE, ManifestRecord { last_fid: Fid(fid), last_compact_version: version }))
    }
}

impl Default for ManifestRecord {
    /// The watermark of a store that has logged nothing yet.
    fn default() -> (r: ManifestRecord)
        ensures
            r == default_record(),
    {
        ManifestRecord { last_fid: Fid(0), last_compact_version: 0 }
    }
}

/// Decoding undoes encoding: every record comes back from its own 12-byte
/// encoding, and the encoding is always exactly 12 bytes long.
pub proof fn lemma_record_round_trip(r: ManifestRecord)
    ensures
        spec_encode(r).len() == ENCODED_SIZE,
        spec_decode(spec_encode(r)) == r,
{
    lemma_auto_spec_u32_to_from_le_bytes();
    lemma_auto_spec_u64_to_from_le_bytes();
    assert(spec_encode(r).subrange(0, 4) =~= spec_u32_to_le_bytes(r.last_fid.0));
    assert(spec_encode(r).subrange(4, 12) =~= spec_u64_to_le_bytes(r.last_compact_version));
}

/// Whether a log entry records a creation or a deletion of its payload.
#[derive(Clone, Copy, Debug, PartialEq, Eq, Structural)]
pub enum ManifestEntryFlag {
    /// The payload was created.
    Creation,
    /// The payload was deleted.
    Deletion,
}

/// One logical entry of the manifest log: a flag and a record payload.
///
/// The merge fold reads only the payload; the flag matters to the log
/// backend, which keeps creation entries across a rewrite.
#[derive(Clone, Copy, Debug, PartialEq, Eq, Structural)]
pub struct ManifestEntry {
    /// Whether the entry records a creation or a deletion.
    pub flag: ManifestEntryFlag,
    /// The record carried by the entry.
    pub data: ManifestRecord,
}

impl ManifestEntry {
    /// A creation entry carrying `data`.
    pub fn creation(data: ManifestRecord) -> (r: ManifestEntry)
        ensures
            r.flag is Creation,
            r.data == data,
    {
        ManifestEntry { flag: ManifestEntryFlag::Creation, data }
    }

    /// The record carried by the entry.
    pub fn data(&self) -> (r: &ManifestRecord)
        ensures
            *r == self.data,
    {
        &self.data
    }
}

/// The merge applied when a record is folded into the watermark: the
/// pointwise maximum of the two file identifiers and of the two compaction
/// versions. Commutative, associative and idempotent, so replaying a log
/// with duplicated or reordered entries cannot corrupt the watermark.
pub open spec fn merged(a: ManifestRecord, b: ManifestRecord) -> ManifestRecord {
    ManifestRecord {
        last_fid: Fid(
            if a.last_fid.0 >= b.last_fid.0 {
                a.last_fid.0
            } else {
                b.last_fid.0
            },
        ),
        last_compact_version: if a.last_compact_version >= b.last_compact_version {
            a.last_compact_version
        } else {
            b.last_compact_version
        },
    }
}

/// The watermark reached by folding every record of `s`, in order, into
/// `init` through [`merged`].
pub open spec fn fold_merged(init: ManifestRecord, s: Seq<ManifestRecord>) -> ManifestRecord
    decreases s.len(),
{
    if s.len() == 0 {
        init
    } else {
        merged(fold_merged(init, s.drop_last()), s.last())
    }
}

/// `a` is below `b` in both watermark components.
pub open spec fn record_leq(a: ManifestRecord, b: ManifestRecord) -> bool {
    a.last_fid.0 <= b.last_fid.0 && a.last_compact_version <= b.last_compact_version
}

/// Folding a record into a state twice leaves the same state as folding it
/// once: re-observing an already-subsumed record is harmless.
pub proof fn lemma_merged_idempotent(s: ManifestRecord, r: ManifestRecord)
    ensures
        merged(merged(s, r), r) == merged(s, r),
        merged(r, r) == r,
{
}

/// The merge does not care which record comes first.
pub proof fn lemma_merged_commutative(a: ManifestRecord, b: ManifestRecord)
    ensures
        merged(a, b) == merged(b, a),
{
}

/// The merge does not care how a fold is bracketed.
pub proof fn lemma_merged_associative(a: ManifestRecord, b: ManifestRecord, c: ManifestRecord)
    ensures
        merged(merged(a, b), c) == merged(a, merged(b, c)),
{
}

/// The fresh record is the identity of the merge: replaying the single
/// entry a rewrite leaves behind reproduces the folded watermark exactly.
pub proof fn lemma_merged_default_identity(r: ManifestRecord)
    ensures
        merged(default_record(), r) == r,
        fold_merged(default_record(), seq![r]) == r,
{
    assert(seq![r].len() == 1);
    assert(seq![r].last() == r);
    assert(seq![r].drop_last() =~= Seq::<ManifestRecord>::empty());
    assert(fold_merged(default_record(), Seq::<ManifestRecord>::empty()) == default_record());
    assert(fold_merged(default_record(), seq![r]) == merged(
        fold_merged(default_record(), seq![r].drop_last()),
        r,
    ));
}

/// Any element of a fold can be taken out and merged last.
proof fn lemma_fold_pull_out(init: ManifestRecord, s: Seq<ManifestRecord>, k: int)
    requires
        0 <= k < s.len(),
    ensures
        fold_merged(init, s) == merged(fold_merged(init, s.remove(k)), s[k]),
    decreases s.len(),
{
    if k == s.len() - 1 {
        assert(s.remove(k) =~= s.drop_last());
    } else {
        let dl = s.drop_last();
        lemma_fold_pull_out(init, dl, k);
        assert(s.remove(k).drop_last() =~= dl.remove(k));
        assert(s.remove(k).last() == s.last());
    }
}

/// Folding a sequence of records is insensitive to their order: two logs
/// holding the same records as multisets fold to the same watermark.
pub proof fn lemma_fold_permutation(
    init: ManifestRecord,
    s1: Seq<ManifestRecord>,
    s2: Seq<ManifestRecord>,
)
    requires
        s1.to_multiset() == s2.to_multiset(),
    ensures
        fold_merged(init, s1) == fold_merged(init, s2),
    decreases s1.len(),
{
    s1.to_multiset_ensures();
    s2.to_multiset_ensures();
    if s1.len() == 0 {
        assert(s2.len() == 0);
    } else {
        let x = s1.last();
        let last = s1.len() - 1;
        assert(s1[last] == x);
        assert(s1.contains(x));
        assert(s2.to_multiset().count(x) > 0);
        assert(s2.contains(x));
        let k = choose|k: int| 0 <= k < s2.len() && s2[k] == x;
        lemma_fold_pull_out(init, s2, k);
        assert(s1.drop_last() =~= s1.remove(last));
        assert(s1.remove(last).to_multiset() == s1.to_multiset().remove(x));
        assert(s2.remove(k).to_multiset() == s2.to_multiset().remove(x));
        lemma_fold_permutation(init, s1.drop_last(), s2.remove(k));
    }
}

/// The folded watermark dominates the initial state and every record that
/// went into the fold, in both components.
pub proof fn lemma_fold_monotone(init: ManifestRecord, s: Seq<ManifestRecord>)
    ensures
        record_leq(init, fold_merged(init, s)),
        forall|i: int| 0 <= i < s.len() ==> record_leq(s[i], fold_merged(init, s)),
    decreases s.len(),
{
    if s.len() > 0 {
        lemma_fold_monotone(init, s.drop_last());
        assert forall|i: int| 0 <= i < s.len() implies record_leq(s[i], fold_merged(init, s)) by {
            if i < s.len() - 1 {
                assert(s.drop_last()[i] == s[i]);
            }
        }
    }
}

/// The in-memory folded state: the single authoritative record obtained by
/// replaying the log, held beside the options the file was opened with.
#[derive(Clone, Copy, Debug, PartialEq, Eq, Structural, Hash)]
pub struct Manifest {
    /// The current folded watermark.
    pub last: ManifestRecord,
    /// The options the manifest file was opened with.
    pub opts: ManifestOptions,
}

impl Manifest {
    /// A manifest holding the fresh watermark and the given options.
    pub fn new(opts: ManifestOptions) -> (r: Manifest)
        ensures
            r.last == default_record(),
            r.opts == opts,
    {
        Manifest { last: ManifestRecord { last_fid: Fid(0), last_compact_version: 0 }, opts }
    }

    /// The options the manifest was opened with.
    pub fn options(&self) -> (r: &ManifestOptions)
        ensures
            *r == self.opts,
    {
        &self.opts
    }

    /// The disk backend's rewrite policy: rewrite when the configured
    /// threshold exceeds the hard ceiling — a defensive reading of an overly
    /// large configuration as "always rewrite" — or when the log has grown
    /// past `maximum_size` bytes.
    pub fn should_rewrite(&self, size: u64) -> (r: bool)
        ensures
            r == (self.opts.rewrite_threshold > MANIFEST_REWRITE_THRESHOLD || size
                > self.opts.maximum_size as u64),
    {
        self.opts.rewrite_threshold > MANIFEST_REWRITE_THRESHOLD
            || size > self.opts.maximum_size as u64
    }

    /// Folds one entry's record into the watermark.
    pub fn insert(&mut self, entry: ManifestEntry)
        ensures
            final(self).last == merged(old(self).last, entry.data),
            final(self).opts == old(self).opts,
    {
        self.last.last_fid.max_assign(entry.data.last_fid);
        self.last.last_compact_version = if self.last.last_compact_version
            >= entry.data.last_compact_version {
            self.last.last_compact_version
        } else {
            entry.data.last_compact_version
        };
    }

    /// Folds every entry of the batch into the watermark, in the order
    /// given; the merge being commutative, the order cannot change the
    /// result.
    pub fn insert_batch(&mut self, entries: Vec<ManifestEntry>)
        ensures
            final(self).last == fold_merged(
                old(self).last,
                entries@.map_values(|e: ManifestEntry| e.data),
            ),
            final(self).opts == old(self).opts,
    {
        let ghost records = entries@.map_values(|e: ManifestEntry| e.data);
        let mut i: usize = 0;
        while i < entries.len()
            invariant
                0 <= i <= entries.len(),
                records == entries@.map_values(|e: ManifestEntry| e.data),
                records.len() == entries@.len(),
                self.last == fold_merged(old(self).last, records.take(i as int)),
                self.opts == old(self).opts,
            decreases entries.len() - i,
        {
            let entry = entries[i];
            self.insert(entry);
            proof {
                assert(records.take(i + 1).drop_last() =~= records.take(i as int));
                assert(records.take(i + 1).last() == records[i as int]);
            }
            i = i + 1;
        }
        proof {
            assert(records.take(records.len() as int) =~= records);
        }
    }

    /// Resets the watermark to the fresh record; used only when a backend is
    /// initialised from scratch.
    pub fn clear(&mut self)
        ensures
            final(self).last == default_record(),
            final(self).opts == old(self).opts,
    {
        self.last = ManifestRecord { last_fid: Fid(0), last_compact_version: 0 };
    }

    /// Exports the folded state as a log snapshot: a single creation entry
    /// carrying the current watermark, which is all a replay needs.
    pub fn into_iter(self) -> (r: Vec<ManifestEntry>)
        ensures
            r@.len() == 1,
            r@[0].flag is Creation,
            r@[0].data == self.last,
    {
        let mut entries: Vec<ManifestEntry> = Vec::new();
        entries.push(ManifestEntry::creation(self.last));
        entries
    }
}

/// The manifest entry point: a durability wrapper around the folded state.
///
/// This crate holds the volatile backend; a disk-backed variant is an
/// append-only log owned by the embedding layer, which replays and rewrites
/// it through the [`Manifest`] fold and the record codec above.
#[derive(Clone, Copy, Debug, PartialEq, Eq, Structural, Hash)]
pub struct ManifestFile {
    /// The backend the file dispatches to.
    pub kind: MemoryManifest,
}

impl ManifestFile {
    /// Opens a volatile manifest file starting from the default record;
    /// constructing an in-memory backend cannot fail.
    pub fn open(opts: ManifestOptions) -> (r: Result<ManifestFile, ManifestError>)
        ensures
            r matches Ok(f) && f.kind.manifest.last == default_record() && f.kind.manifest.opts
                == opts,
    {
        Ok(ManifestFile { kind: MemoryManifest::new(opts) })
    }

    /// Records one update and folds it into the live watermark; on this
    /// backend the append always succeeds and is all-or-nothing.
    pub fn append(&mut self, ent: ManifestEntry) -> (r: Result<(), ManifestError>)
        ensures
            r is Ok,
            final(self).kind.manifest.last == merged(old(self).kind.manifest.last, ent.data),
            final(self).kind.manifest.opts == old(self).kind.manifest.opts,
    {
        self.kind.append(ent);
        Ok(())
    }

    /// Records a batch of updates; the folded result is the same as if each
    /// entry had been appended individually, in order.
    pub fn append_batch(&mut self, entries: Vec<ManifestEntry>) -> (r: Result<(), ManifestError>)
        ensures
            r is Ok,
            final(self).kind.manifest.last == fold_merged(
                old(self).kind.manifest.last,
                entries@.map_values(|e: ManifestEntry| e.data),
            ),
            final(self).kind.manifest.opts == old(self).kind.manifest.opts,
    {
        self.kind.append_batch(entries);
        Ok(())
    }

    /// The current folded watermark; a pure read that never fails.
    pub fn last_record(&self) -> (r: ManifestRecord)
        ensures
            r == self.kind.manifest.last,
    {
        self.kind.last_record()
    }
}

} // verus!
