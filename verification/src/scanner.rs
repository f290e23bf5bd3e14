//! Discovery of files: which entries of a directory walk are looked at, and
//! how the files found are handed on in batches.
//!
//! The walk itself is done by the embedding program. It asks
//! [`should_visit`] for every entry and tells the [`ScanBatcher`] of every
//! file it meets.

use vstd::prelude::*;
use vstd::string::StrSliceExecFns;
use crate::worker::UiMessage;

verus! {

/// A batch is handed on once it holds this many files.
pub const BATCH_CAPACITY: usize = 100;

/// A batch is handed on once this many milliseconds passed since the last.
pub const FLUSH_INTERVAL_MS: u64 = 50;

/// A command sent to the scanner.
#[derive(Debug)]
pub enum ScannerMessage {
    Scan(Vec<String>),
}

/// Whether a name begins with a dot.
pub open spec fn spec_dot_prefixed(name: Seq<char>) -> bool {
    name.len() > 0 && name[0] == '.'
}

/// Whether the walk looks at an entry with this file name: the name is
/// readable as text and does not begin with a dot.
pub open spec fn spec_should_visit(file_name: Option<&str>) -> bool {
    match file_name {
        Some(name) => !spec_dot_prefixed(name@),
        None => false,
    }
}

/// Decides whether the walk looks at an entry, and below it if it is a
/// directory. `file_name` is `None` where the name is not valid text.
pub fn should_visit(file_name: Option<&str>) -> (visit: bool)
    ensures
        visit == spec_should_visit(file_name),
{
    match file_name {
        Some(name) => {
            if name.unicode_len() == 0 {
                true
            } else {
                name.get_char(0) != '.'
            }
        },
        None => false,
    }
}

/// What a directory entry is. A symbolic link is never followed, whatever
/// it points to.
#[derive(Debug, Clone, Copy, PartialEq, Eq, Structural)]
pub enum EntryKind {
    File,
    Directory,
    SymbolicLink,
    Other,
}

/// Whether an entry is reported as a discovered file: regular files only.
pub fn is_discovered_file(kind: EntryKind) -> (discovered: bool)
    ensures
        discovered == (kind == EntryKind::File),
{
    match kind {
        EntryKind::File => true,
        _ => false,
    }
}

/// The event for a root that is a file itself: a batch of that one file, or
/// nothing where its size could not be read.
pub fn single_file(path: String, size: Option<u64>) -> (event: Option<UiMessage>)
    ensures
        match size {
            Some(bytes) => event matches Some(UiMessage::FilesDiscovered(batch)) && batch@
                == seq![(path, bytes)],
            None => event.is_none(),
        },
{
    match size {
        Some(bytes) => {
            let mut batch: Vec<(String, u64)> = Vec::new();
            batch.push((path, bytes));
            Some(UiMessage::FilesDiscovered(batch))
        },
        None => None,
    }
}

/// The files waiting after a file was met: the file joins them where its
/// size could be read.
pub open spec fn spec_pending_after(
    pending: Seq<(String, u64)>,
    path: String,
    size: Option<u64>,
) -> Seq<(String, u64)> {
    match size {
        Some(bytes) => pending.push((path, bytes)),
        None => pending,
    }
}

/// Whether a batch is handed on: it is full, or the interval has passed.
pub open spec fn spec_flush_due(pending_len: nat, elapsed_ms: u64) -> bool {
    pending_len >= BATCH_CAPACITY || elapsed_ms >= FLUSH_INTERVAL_MS
}

/// Collects the files of a walk and hands them on in batches, so that the
/// consumer sees results while the walk goes on.
pub struct ScanBatcher {
    pending: Vec<(String, u64)>,
}

impl ScanBatcher {
    /// The files met and not handed on yet.
    pub closed spec fn pending(&self) -> Seq<(String, u64)> {
        self.pending@
    }

    /// A batcher with nothing waiting.
    pub fn new() -> (batcher: Self)
        ensures
            batcher.pending() == Seq::<(String, u64)>::empty(),
    {
        ScanBatcher { pending: Vec::new() }
    }

    /// The walk met a file. `size` is `None` where its metadata could not be
    /// read; such a file is skipped. `elapsed_ms` is the time since the last
    /// batch was handed on. Where a batch is due, everything waiting is
    /// handed on, even if that is nothing, and the caller restarts its clock.
    pub fn record_file(&mut self, path: String, size: Option<u64>, elapsed_ms: u64) -> (event:
        Option<UiMessage>)
        ensures
            ({
                let waiting = spec_pending_after(old(self).pending(), path, size);
                if spec_flush_due(waiting.len(), elapsed_ms) {
                    &&& event matches Some(UiMessage::FilesDiscovered(batch)) && batch@ == waiting
                    &&& final(self).pending() == Seq::<(String, u64)>::empty()
                } else {
                    &&& event.is_none()
                    &&& final(self).pending() == waiting
                }
            }),
    {
        match size {
            Some(bytes) => {
                self.pending.push((path, bytes));
            },
            None => {},
        }
        if self.pending.len() >= BATCH_CAPACITY || elapsed_ms >= FLUSH_INTERVAL_MS {
            let mut batch: Vec<(String, u64)> = Vec::new();
            core::mem::swap(&mut self.pending, &mut batch);
            Some(UiMessage::FilesDiscovered(batch))
        } else {
            None
        }
    }

    /// The walk is over: what is still waiting is handed on, if anything is.
    pub fn finish(self) -> (event: Option<UiMessage>)
        ensures
            self.pending().len() > 0 ==> (event matches Some(UiMessage::FilesDiscovered(batch))
                && batch@ == self.pending()),
            self.pending().len() == 0 ==> event.is_none(),
    {
        if self.pending.len() > 0 {
            Some(UiMessage::FilesDiscovered(self.pending))
        } else {
            None
        }
    }
}

/// One file met by a walk.
pub struct FileSeen {
    pub path: String,
    pub size: Option<u64>,
    /// The time since the last batch was handed on.
    pub elapsed_ms: u64,
}

/// The files of a walk whose size could be read, in the order they were met.
pub open spec fn spec_accepted(seen: Seq<FileSeen>) -> Seq<(String, u64)>
    decreases seen.len(),
{
    if seen.len() == 0 {
        Seq::empty()
    } else {
        spec_pending_after(spec_accepted(seen.drop_last()), seen.last().path, seen.last().size)
    }
}

/// Everything handed on during a walk that began with `pending` waiting, one
/// batch after the other.
pub open spec fn spec_delivered(pending: Seq<(String, u64)>, seen: Seq<FileSeen>) -> Seq<
    (String, u64),
>
    decreases seen.len(),
{
    if seen.len() == 0 {
        Seq::empty()
    } else {
        let before = seen.drop_last();
        let waiting = spec_pending_after(
            spec_waiting(pending, before),
            seen.last().path,
            seen.last().size,
        );
        if spec_flush_due(waiting.len(), seen.last().elapsed_ms) {
            spec_delivered(pending, before) + waiting
        } else {
            spec_delivered(pending, before)
        }
    }
}

/// What is waiting after a walk that began with `pending` waiting.
pub open spec fn spec_waiting(pending: Seq<(String, u64)>, seen: Seq<FileSeen>) -> Seq<
    (String, u64),
>
    decreases seen.len(),
{
    if seen.len() == 0 {
        pending
    } else {
        let waiting = spec_pending_after(
            spec_waiting(pending, seen.drop_last()),
            seen.last().path,
            seen.last().size,
        );
        if spec_flush_due(waiting.len(), seen.last().elapsed_ms) {
            Seq::empty()
        } else {
            waiting
        }
    }
}

/// No file is lost, doubled or reordered by batching: what was handed on
/// during a walk, followed by what is still waiting, is what was waiting at
/// its start followed by the files met whose size could be read. No batch
/// left waiting reaches the capacity.
pub proof fn lemma_batching_keeps_files(pending: Seq<(String, u64)>, seen: Seq<FileSeen>)
    requires
        pending.len() < BATCH_CAPACITY,
    ensures
        spec_delivered(pending, seen) + spec_waiting(pending, seen) == pending + spec_accepted(
            seen,
        ),
        spec_waiting(pending, seen).len() < BATCH_CAPACITY,
    decreases seen.len(),
{
    if seen.len() == 0 {
        assert(spec_delivered(pending, seen) + spec_waiting(pending, seen) =~= pending
            + spec_accepted(seen));
    } else {
        let before = seen.drop_last();
        lemma_batching_keeps_files(pending, before);
        let waiting = spec_pending_after(
            spec_waiting(pending, before),
            seen.last().path,
            seen.last().size,
        );
        let joined = spec_delivered(pending, before) + spec_waiting(pending, before);
        assert(joined == pending + spec_accepted(before));
        match seen.last().size {
            Some(bytes) => {
                let file = (seen.last().path, bytes);
                assert(spec_delivered(pending, before) + waiting =~= joined.push(file));
                assert(pending + spec_accepted(seen) =~= (pending + spec_accepted(before)).push(
                    file,
                ));
            },
            None => {},
        }
        assert(spec_delivered(pending, before) + waiting =~= pending + spec_accepted(seen));
        assert(spec_delivered(pending, seen) + spec_waiting(pending, seen) =~= pending
            + spec_accepted(seen));
    }
}

} // verus!
