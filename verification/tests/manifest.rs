use limedb::error::ManifestRecordError;
use limedb::manifest::memory::MemoryManifest;
use limedb::manifest::{Manifest, ManifestEntry, ManifestFile, ManifestRecord};
use limedb::options::ManifestOptions;
use limedb::Fid;

fn record(fid: u32, version: u64) -> ManifestRecord {
    ManifestRecord { last_fid: Fid(fid), last_compact_version: version }
}

#[test]
fn fid_next_leaves_self_alone() {
    let fid = Fid(7);
    assert_eq!(fid.next(), Fid(8));
    assert_eq!(fid, Fid(7));
}

#[test]
fn fid_next_assign_advances() {
    let mut fid = Fid(7);
    fid.next_assign();
    assert_eq!(fid, Fid(8));
}

#[test]
fn fid_max_picks_larger() {
    assert_eq!(Fid(3).max(Fid(9)), Fid(9));
    assert_eq!(Fid(9).max(Fid(3)), Fid(9));
    assert_eq!(Fid(4).max(Fid(4)), Fid(4));
}

#[test]
fn fid_max_assign_keeps_larger() {
    let mut fid = Fid(3);
    fid.max_assign(Fid(9));
    assert_eq!(fid, Fid(9));
    fid.max_assign(Fid(2));
    assert_eq!(fid, Fid(9));
}

#[test]
fn encode_writes_twelve_little_endian_bytes() {
    let r = record(0x0102_0304, 0x1112_1314_1516_1718);
    let mut buf = vec![0xAAu8; 14];
    assert_eq!(r.encoded_size(), 12);
    assert_eq!(r.encode(&mut buf), Ok(12));
    assert_eq!(
        &buf[..12],
        &[0x04, 0x03, 0x02, 0x01, 0x18, 0x17, 0x16, 0x15, 0x14, 0x13, 0x12, 0x11]
    );
    assert_eq!(&buf[12..], &[0xAA, 0xAA]);
}

#[test]
fn decode_undoes_encode() {
    let r = record(4_294_967_295, 18_446_744_073_709_551_615);
    let mut buf = vec![0u8; 12];
    assert_eq!(r.encode(&mut buf), Ok(12));
    let (read, back) = ManifestRecord::decode(&buf).unwrap();
    assert_eq!(read, 12);
    assert_eq!(back, r);
}

#[test]
fn encode_rejects_short_buffer() {
    let r = record(1, 2);
    let mut buf = vec![0x55u8; 11];
    assert_eq!(r.encode(&mut buf), Err(ManifestRecordError::EncodeBufferTooSmall));
    assert_eq!(buf, vec![0x55u8; 11]);
}

#[test]
fn decode_rejects_short_buffer() {
    let buf = [0u8; 11];
    assert_eq!(ManifestRecord::decode(&buf), Err(ManifestRecordError::NotEnoughBytes));
}

#[test]
fn merge_is_idempotent() {
    let mut manifest = Manifest::new(ManifestOptions::new());
    manifest.insert(ManifestEntry::creation(record(3, 5)));
    let once = manifest.last;
    manifest.insert(ManifestEntry::creation(record(3, 5)));
    assert_eq!(manifest.last, once);
}

#[test]
fn merge_is_commutative_across_permutations() {
    let records = [record(3, 5), record(1, 9), record(7, 2), record(3, 5)];
    let forward: Vec<ManifestEntry> =
        records.iter().map(|r| ManifestEntry::creation(*r)).collect();
    let backward: Vec<ManifestEntry> =
        records.iter().rev().map(|r| ManifestEntry::creation(*r)).collect();

    let mut first = Manifest::new(ManifestOptions::new());
    first.insert_batch(forward);
    let mut second = Manifest::new(ManifestOptions::new());
    second.insert_batch(backward);

    assert_eq!(first.last, second.last);
    assert_eq!(first.last, record(7, 9));
}

#[test]
fn folded_watermark_dominates_every_append() {
    let appended = [record(3, 5), record(1, 9), record(2, 2)];
    let mut manifest = Manifest::new(ManifestOptions::new());
    for r in appended {
        manifest.insert(ManifestEntry::creation(r));
    }
    for r in appended {
        assert!(manifest.last.last_fid.0 >= r.last_fid.0);
        assert!(manifest.last.last_compact_version >= r.last_compact_version);
    }
}

#[test]
fn clear_resets_to_default() {
    let mut manifest = Manifest::new(ManifestOptions::new());
    manifest.insert(ManifestEntry::creation(record(3, 5)));
    manifest.clear();
    assert_eq!(manifest.last, record(0, 0));
}

#[test]
fn snapshot_export_is_one_creation_entry() {
    let mut manifest = Manifest::new(ManifestOptions::new());
    manifest.insert(ManifestEntry::creation(record(3, 5)));
    let folded = manifest.last;
    let entries = manifest.into_iter();
    assert_eq!(entries.len(), 1);
    assert_eq!(entries[0].data, folded);
    // Replaying the exported entry from a fresh state reproduces the
    // watermark the export was taken from.
    let mut replayed = Manifest::new(ManifestOptions::new());
    replayed.insert_batch(entries);
    assert_eq!(replayed.last, folded);
}

#[test]
fn disk_rewrite_policy_fires_on_size_or_threshold() {
    let manifest = Manifest::new(ManifestOptions::new().with_maximum_size(64));
    assert!(!manifest.should_rewrite(64));
    assert!(manifest.should_rewrite(65));

    let oversized = Manifest::new(ManifestOptions::new().with_rewrite_threshold(10_001));
    assert!(oversized.should_rewrite(0));
    let at_ceiling = Manifest::new(ManifestOptions::new().with_rewrite_threshold(10_000));
    assert!(!at_ceiling.should_rewrite(0));
}

#[test]
fn memory_backend_never_rewrites() {
    let backend = MemoryManifest::new(ManifestOptions::new().with_maximum_size(0));
    assert!(!backend.should_rewrite());
}

#[test]
fn memory_backend_folds_appends() {
    let mut backend = MemoryManifest::new(ManifestOptions::new());
    assert_eq!(backend.last_record(), record(0, 0));
    backend.append(ManifestEntry::creation(record(3, 5)));
    backend.append_batch(vec![
        ManifestEntry::creation(record(1, 9)),
        ManifestEntry::creation(record(2, 4)),
    ]);
    assert_eq!(backend.last_record(), record(3, 9));
}

#[test]
fn fresh_memory_file_scenario() {
    let mut file = ManifestFile::open(ManifestOptions::new()).unwrap();
    assert_eq!(file.last_record(), record(0, 0));

    file.append(ManifestEntry::creation(record(3, 5))).unwrap();
    file.append(ManifestEntry::creation(record(1, 9))).unwrap();
    assert_eq!(file.last_record(), record(3, 9));

    file.append(ManifestEntry::creation(record(3, 5))).unwrap();
    assert_eq!(file.last_record(), record(3, 9));
}

#[test]
fn file_append_batch_matches_individual_appends() {
    let batch = vec![
        ManifestEntry::creation(record(3, 5)),
        ManifestEntry::creation(record(1, 9)),
    ];
    let mut batched = ManifestFile::open(ManifestOptions::new()).unwrap();
    batched.append_batch(batch.clone()).unwrap();

    let mut one_by_one = ManifestFile::open(ManifestOptions::new()).unwrap();
    for entry in batch {
        one_by_one.append(entry).unwrap();
    }
    assert_eq!(batched.last_record(), one_by_one.last_record());
}

#[test]
fn options_hold_documented_defaults() {
    let opts = ManifestOptions::new();
    assert_eq!(opts.version(), 0);
    assert_eq!(opts.rewrite_threshold(), 10_000);
    assert_eq!(opts.maximum_size(), 1_024);
    assert_eq!(ManifestOptions::default(), opts);
}

#[test]
fn options_setters_replace_one_field() {
    let opts = ManifestOptions::new()
        .with_version(2)
        .with_rewrite_threshold(7)
        .with_maximum_size(64);
    assert_eq!(opts.version(), 2);
    assert_eq!(opts.rewrite_threshold(), 7);
    assert_eq!(opts.maximum_size(), 64);
}

#[test]
fn record_error_messages_name_the_failure() {
    assert_eq!(
        ManifestRecordError::EncodeBufferTooSmall.message(),
        "buffer too small to encode manifest record."
    );
    assert_eq!(
        ManifestRecordError::NotEnoughBytes.message(),
        "not enough bytes to decode manifest record."
    );
}
