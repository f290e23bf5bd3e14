use turbohash::cache::CacheEntry;
use turbohash::engine::ProgressUpdate;
use turbohash::scanner::{should_visit, single_file, ScanBatcher};
use turbohash::status::{entry_for, should_flush_pending, FileStatus};
use turbohash::worker::{
    ChannelPoll, FileDigests, FileJob, FileMetadata, JobEvent, NextAction, ProgressMultiplexor,
    UiMessage, WorkerAction, WorkerMessage, WorkerThread,
};

fn cached_entry() -> CacheEntry {
    CacheEntry {
        path: "/f".to_string(),
        file_size: 100,
        modified_time: 7,
        cached_at: 1,
        xxhash3: "0123456789abcdef0123456789abcdef".to_string(),
        crc32: "01234567".to_string(),
        md5: "0123456789abcdef0123456789abcdef".to_string(),
        sha1: "0123456789abcdef0123456789abcdef01234567".to_string(),
    }
}

fn fresh_digests() -> FileDigests {
    FileDigests {
        crc32: "aaaaaaaa".to_string(),
        md5: "b".repeat(32),
        sha1: "c".repeat(40),
        xxhash3: "d".repeat(32),
        file_size: 100,
    }
}

#[test]
fn job_without_entry_computes_everything() {
    let (mut job, first) = FileJob::begin("/f".to_string(), None);
    assert!(matches!(&first.messages[..], [UiMessage::FileStarted { path }] if path == "/f"));
    assert_eq!(first.next, NextAction::ReadMetadata);

    let step = job.step(JobEvent::Metadata(Some(FileMetadata { file_size: 100, modified_time: Some(7) })));
    assert!(step.messages.is_empty());
    assert_eq!(step.next, NextAction::ComputeAll);

    let step = job.step(JobEvent::Digests { digests: Some(fresh_digests()), elapsed_ms: 12 });
    assert_eq!(step.next, NextAction::Finished);
    assert_eq!(step.messages.len(), 2);
    assert!(matches!(&step.messages[0], UiMessage::Xxhash3Computed { path, xxhash3 }
        if path == "/f" && *xxhash3 == "d".repeat(32)));
    match &step.messages[1] {
        UiMessage::FileCompleted {
            path, crc32, md5, sha1, xxhash3, duration_ms, modified_time, file_size, from_cache,
        } => {
            assert_eq!(path, "/f");
            assert_eq!(crc32, "aaaaaaaa");
            assert_eq!(*md5, "b".repeat(32));
            assert_eq!(*sha1, "c".repeat(40));
            assert_eq!(*xxhash3, "d".repeat(32));
            assert_eq!(*duration_ms, 12);
            assert_eq!(*modified_time, 7);
            assert_eq!(*file_size, 100);
            assert!(!from_cache);
        }
        other => panic!("unexpected: {:?}", other),
    }
    assert!(job.is_done());
}

#[test]
fn job_with_valid_entry_is_served_from_cache() {
    let (mut job, _) = FileJob::begin("/f".to_string(), Some(cached_entry()));
    let step = job.step(JobEvent::Metadata(Some(FileMetadata { file_size: 100, modified_time: Some(7) })));
    assert_eq!(step.next, NextAction::ComputeFastDigest);
    let step = job.step(JobEvent::FastDigest {
        xxhash3: Some("0123456789abcdef0123456789abcdef".to_string()),
        elapsed_ms: 3,
    });
    assert_eq!(step.next, NextAction::Finished);
    assert_eq!(step.messages.len(), 2);
    match &step.messages[1] {
        UiMessage::FileCompleted { crc32, md5, sha1, from_cache, duration_ms, file_size, modified_time, .. } => {
            assert_eq!(crc32, "01234567");
            assert_eq!(md5, "0123456789abcdef0123456789abcdef");
            assert_eq!(sha1, "0123456789abcdef0123456789abcdef01234567");
            assert!(*from_cache);
            assert_eq!(*duration_ms, 3);
            assert_eq!(*file_size, 100);
            assert_eq!(*modified_time, 7);
        }
        other => panic!("unexpected: {:?}", other),
    }
}

#[test]
fn stale_entry_is_invalidated_and_recomputed() {
    let (mut job, _) = FileJob::begin("/f".to_string(), Some(cached_entry()));
    job.step(JobEvent::Metadata(Some(FileMetadata { file_size: 100, modified_time: Some(7) })));
    let step = job.step(JobEvent::FastDigest { xxhash3: Some("f".repeat(32)), elapsed_ms: 3 });
    assert!(step.messages.is_empty());
    assert_eq!(step.next, NextAction::InvalidateThenComputeAll);
    assert_eq!(job.pending_action(), NextAction::ComputeAll);
    let step = job.step(JobEvent::Digests { digests: Some(fresh_digests()), elapsed_ms: 9 });
    assert!(matches!(&step.messages[1], UiMessage::FileCompleted { from_cache: false, .. }));
}

#[test]
fn malformed_cached_digests_are_not_served() {
    let mut entry = cached_entry();
    entry.md5 = "not hex".to_string();
    let (mut job, _) = FileJob::begin("/f".to_string(), Some(entry));
    job.step(JobEvent::Metadata(Some(FileMetadata { file_size: 100, modified_time: Some(7) })));
    let step = job.step(JobEvent::FastDigest {
        xxhash3: Some("0123456789abcdef0123456789abcdef".to_string()),
        elapsed_ms: 3,
    });
    assert_eq!(step.next, NextAction::InvalidateThenComputeAll);
}

#[test]
fn changed_metadata_invalidates_the_entry() {
    for metadata in [
        FileMetadata { file_size: 101, modified_time: Some(7) },
        FileMetadata { file_size: 100, modified_time: Some(8) },
        FileMetadata { file_size: 100, modified_time: None },
        FileMetadata { file_size: 101, modified_time: None },
    ] {
        let (mut job, _) = FileJob::begin("/f".to_string(), Some(cached_entry()));
        let step = job.step(JobEvent::Metadata(Some(metadata)));
        assert!(step.messages.is_empty());
        assert_eq!(step.next, NextAction::InvalidateThenComputeAll);
        assert_eq!(job.pending_action(), NextAction::ComputeAll);
        let step = job.step(JobEvent::Digests { digests: Some(fresh_digests()), elapsed_ms: 9 });
        assert!(matches!(&step.messages[1], UiMessage::FileCompleted { from_cache: false, .. }));
    }
}

#[test]
fn nothing_is_invalidated_without_an_entry() {
    for metadata in [
        FileMetadata { file_size: 101, modified_time: Some(7) },
        FileMetadata { file_size: 100, modified_time: None },
    ] {
        let (mut job, _) = FileJob::begin("/f".to_string(), None);
        let step = job.step(JobEvent::Metadata(Some(metadata)));
        assert_eq!(step.next, NextAction::ComputeAll);
    }
}

#[test]
fn failures_end_the_job() {
    let (mut job, _) = FileJob::begin("/f".to_string(), Some(cached_entry()));
    let step = job.step(JobEvent::Metadata(None));
    assert!(matches!(&step.messages[..], [UiMessage::FileFailed { path }] if path == "/f"));
    assert_eq!(step.next, NextAction::Finished);

    let (mut job, _) = FileJob::begin("/f".to_string(), Some(cached_entry()));
    job.step(JobEvent::Metadata(Some(FileMetadata { file_size: 100, modified_time: Some(7) })));
    let step = job.step(JobEvent::FastDigest { xxhash3: None, elapsed_ms: 1 });
    assert!(matches!(&step.messages[..], [UiMessage::FileFailed { .. }]));
    assert!(job.is_done());

    let (mut job, _) = FileJob::begin("/f".to_string(), None);
    job.step(JobEvent::Metadata(Some(FileMetadata { file_size: 1, modified_time: None })));
    let step = job.step(JobEvent::Digests { digests: None, elapsed_ms: 1 });
    assert!(matches!(&step.messages[..], [UiMessage::FileFailed { .. }]));
}

#[test]
fn unexpected_events_change_nothing() {
    let (mut job, _) = FileJob::begin("/f".to_string(), None);
    let step = job.step(JobEvent::Digests { digests: Some(fresh_digests()), elapsed_ms: 1 });
    assert!(step.messages.is_empty());
    assert_eq!(step.next, NextAction::ReadMetadata);
    job.step(JobEvent::Metadata(None));
    let step = job.step(JobEvent::Metadata(Some(FileMetadata { file_size: 1, modified_time: None })));
    assert!(step.messages.is_empty());
    assert_eq!(step.next, NextAction::Finished);
}

#[test]
fn worker_dispatches_commands() {
    assert!(matches!(
        WorkerThread::dispatch(WorkerMessage::Compute(vec!["/a".to_string()])),
        WorkerAction::StartBatch(files) if files == vec!["/a".to_string()]
    ));
    assert!(matches!(
        WorkerThread::dispatch(WorkerMessage::Scan(vec!["/d".to_string()])),
        WorkerAction::ForwardScan(paths) if paths == vec!["/d".to_string()]
    ));
    assert!(matches!(
        WorkerThread::dispatch(WorkerMessage::SaveCache(vec![cached_entry()])),
        WorkerAction::PersistCache(entries) if entries.len() == 1
    ));
    assert!(matches!(WorkerThread::dispatch(WorkerMessage::Cancel), WorkerAction::Nothing));
    assert!(matches!(WorkerThread::save_outcome(true), Some(UiMessage::CacheSaved)));
    assert!(WorkerThread::save_outcome(false).is_none());
    assert_eq!(WorkerThread::batch_sizes(None), (262_144, 4_194_304));
    assert_eq!(WorkerThread::batch_sizes(Some((1, 2))), (1, 2));
}

#[test]
fn multiplexor_forwards_at_most_every_interval() {
    let mut mux = ProgressMultiplexor::new();
    assert!(mux.is_idle());
    assert!(!mux.register("/a".to_string()));
    assert!(!mux.register("/b".to_string()));
    assert!(mux.register("/a".to_string()));
    assert!(!mux.register("/c".to_string()));
    assert_eq!(mux.channel_count(), 3);
    assert_eq!(mux.channel_at(1), "/b");

    let polls = vec![
        ChannelPoll::Update(ProgressUpdate { processed: 1, total: 10 }),
        ChannelPoll::Empty,
        ChannelPoll::Update(ProgressUpdate { processed: 5, total: 50 }),
    ];
    let early = mux.cycle(31, &polls);
    assert!(early.messages.is_empty());
    assert!(early.retired.is_empty());
    assert!(!early.restart_clock);
    assert_eq!(mux.channel_count(), 3);

    let due = mux.cycle(32, &polls);
    assert!(due.restart_clock);
    assert_eq!(due.messages.len(), 2);
    assert!(matches!(&due.messages[0], UiMessage::Progress { path, processed: 1, total: 10 } if path == "/a"));
    assert!(matches!(&due.messages[1], UiMessage::Progress { path, processed: 5, total: 50 } if path == "/c"));

    let polls = vec![ChannelPoll::Disconnected, ChannelPoll::Empty, ChannelPoll::Disconnected];
    let outcome = mux.cycle(0, &polls);
    assert_eq!(outcome.retired, vec!["/a".to_string(), "/c".to_string()]);
    assert_eq!(mux.channel_count(), 1);
    assert_eq!(mux.channel_at(0), "/b");

    let outcome = mux.cycle(100, &Vec::new());
    assert!(outcome.messages.is_empty());
    assert_eq!(mux.channel_count(), 1);
    let outcome = mux.cycle(100, &vec![ChannelPoll::Disconnected, ChannelPoll::Disconnected]);
    assert_eq!(outcome.retired, vec!["/b".to_string()]);
    assert!(mux.is_idle());
}

#[test]
fn scanner_skips_dot_entries() {
    assert!(should_visit(Some("file.txt")));
    assert!(should_visit(Some("a.b")));
    assert!(should_visit(Some("")));
    assert!(!should_visit(Some(".git")));
    assert!(!should_visit(Some(".")));
    assert!(!should_visit(None));
}

#[test]
fn scanner_batches_by_count_and_time() {
    let mut batcher = ScanBatcher::new();
    for i in 0..99u64 {
        assert!(batcher.record_file(format!("/f{}", i), Some(i), 0).is_none());
    }
    match batcher.record_file("/f99".to_string(), Some(99), 0) {
        Some(UiMessage::FilesDiscovered(batch)) => {
            assert_eq!(batch.len(), 100);
            assert_eq!(batch[0], ("/f0".to_string(), 0));
            assert_eq!(batch[99], ("/f99".to_string(), 99));
        }
        other => panic!("unexpected: {:?}", other),
    }
    assert!(batcher.record_file("/g".to_string(), Some(1), 49).is_none());
    match batcher.record_file("/h".to_string(), None, 50) {
        Some(UiMessage::FilesDiscovered(batch)) => assert_eq!(batch, vec![("/g".to_string(), 1)]),
        other => panic!("unexpected: {:?}", other),
    }
    match batcher.record_file("/i".to_string(), None, 50) {
        Some(UiMessage::FilesDiscovered(batch)) => assert!(batch.is_empty()),
        other => panic!("unexpected: {:?}", other),
    }
    assert!(batcher.record_file("/j".to_string(), Some(4), 0).is_none());
    match batcher.finish() {
        Some(UiMessage::FilesDiscovered(batch)) => assert_eq!(batch, vec![("/j".to_string(), 4)]),
        other => panic!("unexpected: {:?}", other),
    }
    assert!(ScanBatcher::new().finish().is_none());
}

#[test]
fn a_root_that_is_a_file_is_one_batch() {
    match single_file("/one".to_string(), Some(12)) {
        Some(UiMessage::FilesDiscovered(batch)) => assert_eq!(batch, vec![("/one".to_string(), 12)]),
        other => panic!("unexpected: {:?}", other),
    }
    assert!(single_file("/one".to_string(), None).is_none());
}

#[test]
fn status_follows_the_events() {
    let started = UiMessage::FileStarted { path: "/f".to_string() };
    let failed = UiMessage::FileFailed { path: "/f".to_string() };
    let progress = UiMessage::Progress { path: "/f".to_string(), processed: 1, total: 2 };
    assert_eq!(FileStatus::Pending.after(&started), FileStatus::Computing);
    assert_eq!(FileStatus::Computing.after(&failed), FileStatus::Failed);
    assert_eq!(FileStatus::Computing.after(&progress), FileStatus::Computing);
    assert_eq!(FileStatus::Computing.after_stop(), FileStatus::Cancelled);
    assert_eq!(FileStatus::Pending.after_stop(), FileStatus::Pending);
    assert_eq!(FileStatus::Completed.after_stop(), FileStatus::Completed);
    assert!(!FileStatus::Completed.accepts_progress());
    assert!(FileStatus::Computing.accepts_progress());
    assert!(FileStatus::Pending.is_pending());
    assert!(!FileStatus::Failed.is_pending());
}

#[test]
fn fresh_results_become_cache_entries() {
    let completed = |from_cache: bool| UiMessage::FileCompleted {
        path: "/f".to_string(),
        crc32: "aaaaaaaa".to_string(),
        md5: "b".repeat(32),
        sha1: "c".repeat(40),
        xxhash3: "d".repeat(32),
        duration_ms: 5,
        modified_time: 77,
        file_size: 88,
        from_cache,
    };
    assert_eq!(FileStatus::Computing.after(&completed(true)), FileStatus::Completed);
    assert!(entry_for(&completed(true), 1000).is_none());
    let entry = entry_for(&completed(false), 1000).unwrap();
    assert_eq!(entry.path, "/f");
    assert_eq!(entry.file_size, 88);
    assert_eq!(entry.modified_time, 77);
    assert_eq!(entry.cached_at, 1000);
    assert_eq!(entry.crc32, "aaaaaaaa");
    assert_eq!(entry.xxhash3, "d".repeat(32));
    assert!(entry_for(&UiMessage::AllCompleted, 1).is_none());

    assert!(!should_flush_pending(0, true));
    assert!(should_flush_pending(1, true));
    assert!(!should_flush_pending(49, false));
    assert!(should_flush_pending(50, false));
}
