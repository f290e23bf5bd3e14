//! The status of a file as the events of the worker drive it, and the
//! collecting of fresh results for the cache.

use vstd::prelude::*;
use crate::cache::CacheEntry;
use crate::worker::UiMessage;

verus! {

/// Fresh results are handed to the cache once this many are waiting.
pub const PENDING_FLUSH_SIZE: usize = 50;

/// Where a file stands.
#[derive(Debug, Clone, Copy, PartialEq, Eq, Structural)]
pub enum FileStatus {
    Pending,
    Computing,
    Completed,
    Failed,
    Cancelled,
}

/// The status of a file after an event that concerns it. A start makes it
/// computing, a completion completed, a failure failed; every other event
/// leaves the status as it is.
pub open spec fn spec_status_after(status: FileStatus, event: UiMessage) -> FileStatus {
    match event {
        UiMessage::FileStarted { .. } => FileStatus::Computing,
        UiMessage::FileCompleted { .. } => FileStatus::Completed,
        UiMessage::FileFailed { .. } => FileStatus::Failed,
        _ => status,
    }
}

impl FileStatus {
    /// The status after an event that concerns the file.
    pub fn after(self, event: &UiMessage) -> (status: FileStatus)
        ensures
            status == spec_status_after(self, *event),
    {
        match event {
            UiMessage::FileStarted { .. } => FileStatus::Computing,
            UiMessage::FileCompleted { .. } => FileStatus::Completed,
            UiMessage::FileFailed { .. } => FileStatus::Failed,
            _ => self,
        }
    }

    /// The status after the user stopped the batch: a file that was
    /// computing counts as cancelled, every other file keeps its status.
    pub fn after_stop(self) -> (status: FileStatus)
        ensures
            status == (if self == FileStatus::Computing {
                FileStatus::Cancelled
            } else {
                self
            }),
    {
        match self {
            FileStatus::Computing => FileStatus::Cancelled,
            other => other,
        }
    }

    /// Whether a progress report still counts for the file: not once it is
    /// completed.
    pub fn accepts_progress(self) -> (accepts: bool)
        ensures
            accepts == (self != FileStatus::Completed),
    {
        match self {
            FileStatus::Completed => false,
            _ => true,
        }
    }

    /// Whether the file is waiting to be computed.
    pub fn is_pending(self) -> (pending: bool)
        ensures
            pending == (self == FileStatus::Pending),
    {
        match self {
            FileStatus::Pending => true,
            _ => false,
        }
    }
}

/// The cache entry that a completion gives rise to: none for a result that
/// came from the cache, and for a fresh result an entry with the digests, the
/// size and the modification time of the event, cached at `now_secs`.
pub open spec fn spec_entry_for(event: UiMessage, now_secs: u64) -> Option<CacheEntry> {
    match event {
        UiMessage::FileCompleted {
            path,
            crc32,
            md5,
            sha1,
            xxhash3,
            modified_time,
            file_size,
            from_cache,
            ..
        } => if from_cache {
            None
        } else {
            Some(
                CacheEntry {
                    path,
                    file_size,
                    modified_time,
                    cached_at: now_secs,
                    xxhash3,
                    crc32,
                    md5,
                    sha1,
                },
            )
        },
        _ => None,
    }
}

/// The cache entry that an event gives rise to at the time `now_secs`.
pub fn entry_for(event: &UiMessage, now_secs: u64) -> (entry: Option<CacheEntry>)
    ensures
        entry == spec_entry_for(*event, now_secs),
{
    match event {
        UiMessage::FileCompleted {
            path,
            crc32,
            md5,
            sha1,
            xxhash3,
            modified_time,
            file_size,
            from_cache,
            ..
        } => {
            if *from_cache {
                None
            } else {
                Some(
                    CacheEntry {
                        path: path.clone(),
                        file_size: *file_size,
                        modified_time: *modified_time,
                        cached_at: now_secs,
                        xxhash3: xxhash3.clone(),
                        crc32: crc32.clone(),
                        md5: md5.clone(),
                        sha1: sha1.clone(),
                    },
                )
            }
        },
        _ => None,
    }
}

/// Whether the fresh results waiting are handed to the cache now: when the
/// batch is over and any are waiting, or when `PENDING_FLUSH_SIZE` are.
pub fn should_flush_pending(waiting: usize, batch_over: bool) -> (flush: bool)
    ensures
        flush == (waiting >= PENDING_FLUSH_SIZE || (batch_over && waiting > 0)),
{
    waiting >= PENDING_FLUSH_SIZE || (batch_over && waiting > 0)
}

} // verus!
