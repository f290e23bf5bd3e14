//! The scheduling protocol: the commands the worker accepts, the events it
//! reports, and the decisions taken for each file of a batch.
//!
//! Nothing here touches a file, the store or a channel. The embedding
//! program performs each [`NextAction`] and hands the outcome back as a
//! [`JobEvent`].

use vstd::prelude::*;
use crate::cache::{CacheEntry, IntegrityVerdict, spec_integrity_verdict};
use crate::engine::ProgressUpdate;

verus! {

/// A command sent to the worker.
#[derive(Debug)]
pub enum WorkerMessage {
    Compute(Vec<String>),
    Scan(Vec<String>),
    SaveCache(Vec<CacheEntry>),
    Cancel,
}

/// An event reported by the worker.
#[derive(Debug)]
pub enum UiMessage {
    FileStarted { path: String },
    /// The fast digest of a file is known; the file is not finished by this.
    Xxhash3Computed { path: String, xxhash3: String },
    FileCompleted {
        path: String,
        crc32: String,
        md5: String,
        sha1: String,
        xxhash3: String,
        duration_ms: u64,
        modified_time: u64,
        file_size: u64,
        from_cache: bool,
    },
    FileFailed { path: String },
    /// A batch of discovered files, each with its size.
    FilesDiscovered(Vec<(String, u64)>),
    Progress { path: String, processed: u64, total: u64 },
    CacheSaved,
    AllCompleted,
}

/// What the worker does with a command.
#[derive(Debug)]
pub enum WorkerAction {
    /// Start an independent batch over these files.
    StartBatch(Vec<String>),
    /// Hand these roots to the scanner.
    ForwardScan(Vec<String>),
    /// Persist these entries off the command loop.
    PersistCache(Vec<CacheEntry>),
    /// Nothing: work under way is never interrupted.
    Nothing,
}

/// The handle of a running worker.
pub struct WorkerThread {}

impl WorkerThread {
    /// Decides what a command makes the worker do. A cancel request changes
    /// nothing: files already dispatched run to completion.
    pub fn dispatch(message: WorkerMessage) -> (action: WorkerAction)
        ensures
            action == match message {
                WorkerMessage::Compute(files) => WorkerAction::StartBatch(files),
                WorkerMessage::Scan(paths) => WorkerAction::ForwardScan(paths),
                WorkerMessage::SaveCache(entries) => WorkerAction::PersistCache(entries),
                WorkerMessage::Cancel => WorkerAction::Nothing,
            },
    {
        match message {
            WorkerMessage::Compute(files) => WorkerAction::StartBatch(files),
            WorkerMessage::Scan(paths) => WorkerAction::ForwardScan(paths),
            WorkerMessage::SaveCache(entries) => WorkerAction::PersistCache(entries),
            WorkerMessage::Cancel => WorkerAction::Nothing,
        }
    }

    /// The event that follows an attempt to persist entries: a notification
    /// where it succeeded, none where it failed.
    pub fn save_outcome(saved: bool) -> (event: Option<UiMessage>)
        ensures
            saved ==> event == Some(UiMessage::CacheSaved),
            !saved ==> event.is_none(),
    {
        if saved {
            Some(UiMessage::CacheSaved)
        } else {
            None
        }
    }

    /// The read buffer size and mapped window size of a batch: the configured
    /// pair, or 256 KiB and 4 MiB where the configuration cannot be read.
    pub fn batch_sizes(configured: Option<(usize, usize)>) -> (sizes: (usize, usize))
        ensures
            sizes == match configured {
                Some(pair) => pair,
                None => (262_144usize, 4_194_304usize),
            },
    {
        match configured {
            Some(pair) => pair,
            None => (262_144, 4_194_304),
        }
    }
}

/// What the embedding program is asked to do next for a file.
#[derive(Debug, Clone, Copy, PartialEq, Eq, Structural)]
pub enum NextAction {
    /// Read the file's size and modification time.
    ReadMetadata,
    /// Compute the fast digest alone.
    ComputeFastDigest,
    /// Delete the file's cache entry, then compute all four digests.
    InvalidateThenComputeAll,
    /// Compute all four digests.
    ComputeAll,
    /// Nothing is left to do for this file.
    Finished,
}

/// Where a file stands in its job.
#[derive(Debug, Clone, Copy, PartialEq, Eq, Structural)]
pub enum JobStage {
    AwaitingMetadata,
    AwaitingFastDigest,
    AwaitingDigests,
    Done,
}

/// The size and modification time read for a file. The modification time is
/// absent where it could not be read.
#[derive(Debug, Clone, Copy, PartialEq, Eq, Structural)]
pub struct FileMetadata {
    pub file_size: u64,
    pub modified_time: Option<u64>,
}

/// The four digests of a file as hex text, with the size that was hashed.
#[derive(Debug, Clone)]
pub struct FileDigests {
    pub crc32: String,
    pub md5: String,
    pub sha1: String,
    pub xxhash3: String,
    pub file_size: u64,
}

/// The outcome of an action, handed back to the job.
#[derive(Debug)]
pub enum JobEvent {
    /// The metadata that was read, or `None` where reading failed.
    Metadata(Option<FileMetadata>),
    /// The fast digest, or `None` where computing it failed, and the
    /// milliseconds spent on the file so far.
    FastDigest { xxhash3: Option<String>, elapsed_ms: u64 },
    /// All digests, or `None` where computing them failed, and the
    /// milliseconds spent on the file so far.
    Digests { digests: Option<FileDigests>, elapsed_ms: u64 },
}

/// What a step of a job yields: the events to report, in order, and the next
/// action.
pub struct FileStep {
    pub messages: Vec<UiMessage>,
    pub next: NextAction,
}

/// The job of one file of a batch.
pub struct FileJob {
    path: String,
    entry: Option<CacheEntry>,
    stage: JobStage,
    file_size: u64,
    modified_time: u64,
}

/// The state of a job as plain values.
pub struct JobState {
    pub path: String,
    /// The cache entry found for the file when the batch began.
    pub entry: Option<CacheEntry>,
    pub stage: JobStage,
    /// The size read for the file; 0 until the metadata arrived.
    pub file_size: u64,
    /// The modification time read for the file; 0 until the metadata arrived
    /// and where it could not be read.
    pub modified_time: u64,
}

/// What a step does: the state it leaves, the events it reports and the
/// action it asks for.
pub struct StepResult {
    pub state: JobState,
    pub messages: Seq<UiMessage>,
    pub next: NextAction,
}

/// The action that a stage waits for.
pub open spec fn spec_pending_action(stage: JobStage) -> NextAction {
    match stage {
        JobStage::AwaitingMetadata => NextAction::ReadMetadata,
        JobStage::AwaitingFastDigest => NextAction::ComputeFastDigest,
        JobStage::AwaitingDigests => NextAction::ComputeAll,
        JobStage::Done => NextAction::Finished,
    }
}

/// Whether a cache entry passes the cheap check against the metadata read:
/// there is an entry, the modification time could be read, and size and time
/// are the cached ones.
pub open spec fn spec_cheap_hit(entry: Option<CacheEntry>, metadata: FileMetadata) -> bool {
    match (entry, metadata.modified_time) {
        (Some(e), Some(mtime)) => e@.matches_metadata(metadata.file_size, mtime),
        _ => false,
    }
}

/// Whether the metadata read shows a cache entry to be stale: there is an
/// entry and it does not pass the cheap check, because the size or the
/// modification time is not the cached one or the modification time could
/// not be read.
pub open spec fn spec_stale_by_metadata(entry: Option<CacheEntry>, metadata: FileMetadata) -> bool {
    entry.is_some() && !spec_cheap_hit(entry, metadata)
}

/// Whether the cached digests are served: there is an entry, it agrees with
/// the file in size, modification time and fast digest, and its digests are
/// well formed.
pub open spec fn spec_cache_hit(
    entry: Option<CacheEntry>,
    computed_xxhash3: Seq<char>,
    file_size: u64,
    modified_time: u64,
) -> bool {
    match entry {
        Some(e) => spec_integrity_verdict(e@, computed_xxhash3, file_size, modified_time)
            == IntegrityVerdict::Valid && e@.digests_well_formed(),
        None => false,
    }
}

/// The file has failed: one failure event, nothing left to do.
pub open spec fn spec_failed(state: JobState) -> StepResult {
    StepResult {
        state: JobState { stage: JobStage::Done, ..state },
        messages: seq![UiMessage::FileFailed { path: state.path }],
        next: NextAction::Finished,
    }
}

/// The step taken when the metadata arrives. Where reading failed the file
/// has failed. Where the cached entry passes the cheap check the fast digest
/// is asked for. Otherwise all digests are asked for, and where the metadata
/// shows the entry found to be stale, its deletion first.
pub open spec fn spec_on_metadata(state: JobState, metadata: Option<FileMetadata>) -> StepResult {
    match metadata {
        None => spec_failed(state),
        Some(m) => {
            let hit = spec_cheap_hit(state.entry, m);
            let stale = spec_stale_by_metadata(state.entry, m);
            StepResult {
                state: JobState {
                    stage: if hit {
                        JobStage::AwaitingFastDigest
                    } else {
                        JobStage::AwaitingDigests
                    },
                    file_size: m.file_size,
                    modified_time: match m.modified_time {
                        Some(t) => t,
                        None => 0,
                    },
                    ..state
                },
                messages: Seq::empty(),
                next: if hit {
                    NextAction::ComputeFastDigest
                } else if stale {
                    NextAction::InvalidateThenComputeAll
                } else {
                    NextAction::ComputeAll
                },
            }
        },
    }
}

/// The step taken when the fast digest arrives. Where computing it failed the
/// file has failed. On a cache hit the cached digests are reported as the
/// result, marked as coming from the cache. Otherwise the entry is stale: it
/// is to be deleted and all digests computed.
pub open spec fn spec_on_fast_digest(
    state: JobState,
    xxhash3: Option<String>,
    elapsed_ms: u64,
) -> StepResult {
    match xxhash3 {
        None => spec_failed(state),
        Some(x) => if spec_cache_hit(state.entry, x@, state.file_size, state.modified_time) {
            StepResult {
                state: JobState { stage: JobStage::Done, ..state },
                messages: seq![
                    UiMessage::Xxhash3Computed { path: state.path, xxhash3: x },
                    UiMessage::FileCompleted {
                        path: state.path,
                        crc32: state.entry.unwrap().crc32,
                        md5: state.entry.unwrap().md5,
                        sha1: state.entry.unwrap().sha1,
                        xxhash3: x,
                        duration_ms: elapsed_ms,
                        modified_time: state.modified_time,
                        file_size: state.file_size,
                        from_cache: true,
                    },
                ],
                next: NextAction::Finished,
            }
        } else {
            StepResult {
                state: JobState { stage: JobStage::AwaitingDigests, ..state },
                messages: Seq::empty(),
                next: NextAction::InvalidateThenComputeAll,
            }
        },
    }
}

/// The step taken when all digests arrive. Where computing them failed the
/// file has failed; otherwise the fast digest and then the result are
/// reported, with the size that was hashed and the modification time read at
/// the start, marked as freshly computed.
pub open spec fn spec_on_digests(
    state: JobState,
    digests: Option<FileDigests>,
    elapsed_ms: u64,
) -> StepResult {
    match digests {
        None => spec_failed(state),
        Some(d) => StepResult {
            state: JobState { stage: JobStage::Done, ..state },
            messages: seq![
                UiMessage::Xxhash3Computed { path: state.path, xxhash3: d.xxhash3 },
                UiMessage::FileCompleted {
                    path: state.path,
                    crc32: d.crc32,
                    md5: d.md5,
                    sha1: d.sha1,
                    xxhash3: d.xxhash3,
                    duration_ms: elapsed_ms,
                    modified_time: state.modified_time,
                    file_size: d.file_size,
                    from_cache: false,
                },
            ],
            next: NextAction::Finished,
        },
    }
}

/// The step that an event causes. An event that the stage does not wait for
/// changes nothing and reports nothing; the pending action is asked for
/// again.
pub open spec fn spec_step(state: JobState, event: JobEvent) -> StepResult {
    match (state.stage, event) {
        (JobStage::AwaitingMetadata, JobEvent::Metadata(metadata)) => spec_on_metadata(
            state,
            metadata,
        ),
        (JobStage::AwaitingFastDigest, JobEvent::FastDigest { xxhash3, elapsed_ms }) => {
            spec_on_fast_digest(state, xxhash3, elapsed_ms)
        },
        (JobStage::AwaitingDigests, JobEvent::Digests { digests, elapsed_ms }) => spec_on_digests(
            state,
            digests,
            elapsed_ms,
        ),
        _ => StepResult {
            state,
            messages: Seq::empty(),
            next: spec_pending_action(state.stage),
        },
    }
}

impl View for FileJob {
    type V = JobState;

    closed spec fn view(&self) -> JobState {
        JobState {
            path: self.path,
            entry: self.entry,
            stage: self.stage,
            file_size: self.file_size,
            modified_time: self.modified_time,
        }
    }
}

impl FileJob {
    /// Starts the job of `path` with the cache entry that the batch lookup
    /// found for it. Reports that the file started and asks for its metadata.
    pub fn begin(path: String, entry: Option<CacheEntry>) -> (started: (FileJob, FileStep))
        ensures
            started.0@ == (JobState {
                path,
                entry,
                stage: JobStage::AwaitingMetadata,
                file_size: 0,
                modified_time: 0,
            }),
            started.1.messages@ == seq![UiMessage::FileStarted { path }],
            started.1.next == NextAction::ReadMetadata,
    {
        let mut messages: Vec<UiMessage> = Vec::new();
        messages.push(UiMessage::FileStarted { path: path.clone() });
        let job = FileJob {
            path,
            entry,
            stage: JobStage::AwaitingMetadata,
            file_size: 0,
            modified_time: 0,
        };
        (job, FileStep { messages, next: NextAction::ReadMetadata })
    }

    /// The action the job is waiting for.
    pub fn pending_action(&self) -> (action: NextAction)
        ensures
            action == spec_pending_action(self@.stage),
    {
        match self.stage {
            JobStage::AwaitingMetadata => NextAction::ReadMetadata,
            JobStage::AwaitingFastDigest => NextAction::ComputeFastDigest,
            JobStage::AwaitingDigests => NextAction::ComputeAll,
            JobStage::Done => NextAction::Finished,
        }
    }

    /// Whether nothing is left to do.
    pub fn is_done(&self) -> (done: bool)
        ensures
            done == (self@.stage == JobStage::Done),
    {
        match self.stage {
            JobStage::Done => true,
            _ => false,
        }
    }

    fn fail(&mut self) -> (step: FileStep)
        ensures
            final(self)@ == spec_failed(old(self)@).state,
            step.messages@ == spec_failed(old(self)@).messages,
            step.next == spec_failed(old(self)@).next,
    {
        let mut messages: Vec<UiMessage> = Vec::new();
        messages.push(UiMessage::FileFailed { path: self.path.clone() });
        self.stage = JobStage::Done;
        FileStep { messages, next: NextAction::Finished }
    }

    fn on_metadata(&mut self, metadata: Option<FileMetadata>) -> (step: FileStep)
        ensures
            final(self)@ == spec_on_metadata(old(self)@, metadata).state,
            step.messages@ == spec_on_metadata(old(self)@, metadata).messages,
            step.next == spec_on_metadata(old(self)@, metadata).next,
    {
        match metadata {
            None => self.fail(),
            Some(m) => {
                self.file_size = m.file_size;
                self.modified_time = match m.modified_time {
                    Some(mtime) => mtime,
                    None => 0,
                };
                let (cheap_hit, stale) = match (&self.entry, m.modified_time) {
                    (Some(e), Some(mtime)) => {
                        let same = e.file_size == m.file_size && e.modified_time == mtime;
                        (same, !same)
                    },
                    (Some(_), None) => (false, true),
                    (None, _) => (false, false),
                };
                let messages: Vec<UiMessage> = Vec::new();
                if cheap_hit {
                    self.stage = JobStage::AwaitingFastDigest;
                    FileStep { messages, next: NextAction::ComputeFastDigest }
                } else if stale {
                    self.stage = JobStage::AwaitingDigests;
                    FileStep { messages, next: NextAction::InvalidateThenComputeAll }
                } else {
                    self.stage = JobStage::AwaitingDigests;
                    FileStep { messages, next: NextAction::ComputeAll }
                }
            },
        }
    }

    fn on_fast_digest(&mut self, xxhash3: Option<String>, elapsed_ms: u64) -> (step: FileStep)
        ensures
            final(self)@ == spec_on_fast_digest(old(self)@, xxhash3, elapsed_ms).state,
            step.messages@ == spec_on_fast_digest(old(self)@, xxhash3, elapsed_ms).messages,
            step.next == spec_on_fast_digest(old(self)@, xxhash3, elapsed_ms).next,
    {
        match xxhash3 {
            None => self.fail(),
            Some(x) => {
                let mut messages: Vec<UiMessage> = Vec::new();
                let hit = match &self.entry {
                    Some(e) => {
                        let verdict = e.check_integrity(
                            x.as_str(),
                            self.file_size,
                            self.modified_time,
                        );
                        match verdict {
                            IntegrityVerdict::Valid => e.digests_well_formed(),
                            _ => false,
                        }
                    },
                    None => false,
                };
                if hit {
                    match &self.entry {
                        Some(e) => {
                            messages.push(
                                UiMessage::Xxhash3Computed {
                                    path: self.path.clone(),
                                    xxhash3: x.clone(),
                                },
                            );
                            messages.push(
                                UiMessage::FileCompleted {
                                    path: self.path.clone(),
                                    crc32: e.crc32.clone(),
                                    md5: e.md5.clone(),
                                    sha1: e.sha1.clone(),
                                    xxhash3: x,
                                    duration_ms: elapsed_ms,
                                    modified_time: self.modified_time,
                                    file_size: self.file_size,
                                    from_cache: true,
                                },
                            );
                        },
                        None => {},
                    }
                    self.stage = JobStage::Done;
                    FileStep { messages, next: NextAction::Finished }
                } else {
                    self.stage = JobStage::AwaitingDigests;
                    FileStep { messages, next: NextAction::InvalidateThenComputeAll }
                }
            },
        }
    }

    fn on_digests(&mut self, digests: Option<FileDigests>, elapsed_ms: u64) -> (step: FileStep)
        ensures
            final(self)@ == spec_on_digests(old(self)@, digests, elapsed_ms).state,
            step.messages@ == spec_on_digests(old(self)@, digests, elapsed_ms).messages,
            step.next == spec_on_digests(old(self)@, digests, elapsed_ms).next,
    {
        match digests {
            None => self.fail(),
            Some(d) => {
                let mut messages: Vec<UiMessage> = Vec::new();
                messages.push(
                    UiMessage::Xxhash3Computed {
                        path: self.path.clone(),
                        xxhash3: d.xxhash3.clone(),
                    },
                );
                messages.push(
                    UiMessage::FileCompleted {
                        path: self.path.clone(),
                        crc32: d.crc32,
                        md5: d.md5,
                        sha1: d.sha1,
                        xxhash3: d.xxhash3,
                        duration_ms: elapsed_ms,
                        modified_time: self.modified_time,
                        file_size: d.file_size,
                        from_cache: false,
                    },
                );
                self.stage = JobStage::Done;
                FileStep { messages, next: NextAction::Finished }
            },
        }
    }

    /// Takes the outcome of the last action and decides what follows.
    pub fn step(&mut self, event: JobEvent) -> (step: FileStep)
        ensures
            final(self)@ == spec_step(old(self)@, event).state,
            step.messages@ == spec_step(old(self)@, event).messages,
            step.next == spec_step(old(self)@, event).next,
    {
        match (self.stage, event) {
            (JobStage::AwaitingMetadata, JobEvent::Metadata(metadata)) => self.on_metadata(
                metadata,
            ),
            (JobStage::AwaitingFastDigest, JobEvent::FastDigest { xxhash3, elapsed_ms }) => {
                self.on_fast_digest(xxhash3, elapsed_ms)
            },
            (JobStage::AwaitingDigests, JobEvent::Digests { digests, elapsed_ms }) => {
                self.on_digests(digests, elapsed_ms)
            },
            _ => FileStep { messages: Vec::new(), next: self.pending_action() },
        }
    }
}

/// Every step reports at most one terminal event, and reports one exactly
/// when it finishes the job: a job that was not done and is done after the
/// step ends its events with a completion or a failure, and a step that
/// leaves the job unfinished reports neither.
pub proof fn lemma_step_terminal_event(state: JobState, event: JobEvent)
    requires
        state.stage != JobStage::Done,
    ensures
        ({
            let r = spec_step(state, event);
            if r.state.stage == JobStage::Done {
                r.messages.len() >= 1 && (r.messages.last() is FileCompleted || r.messages.last()
                    is FileFailed) && r.next == NextAction::Finished && forall|i: int|
                    0 <= i < r.messages.len() - 1 ==> !(r.messages[i] is FileCompleted)
                        && !(r.messages[i] is FileFailed)
            } else {
                r.messages.len() == 0 && r.next != NextAction::Finished
            }
        }),
{
}

/// A result is served from the cache only where the entry found for the file
/// agrees with the file's size, modification time and fast digest and holds
/// well-formed digests.
pub proof fn lemma_from_cache_only_on_hit(state: JobState, event: JobEvent, i: int)
    requires
        0 <= i < spec_step(state, event).messages.len(),
        spec_step(state, event).messages[i] matches UiMessage::FileCompleted { from_cache, .. }
            && from_cache,
    ensures
        state.stage == JobStage::AwaitingFastDigest,
        event matches JobEvent::FastDigest { xxhash3: Some(x), .. } && spec_cache_hit(
            state.entry,
            x@,
            state.file_size,
            state.modified_time,
        ),
{
}

/// Progress is forwarded at most once in this many milliseconds.
pub const FORWARD_INTERVAL_MS: u64 = 32;

/// What one look at a progress channel found.
#[derive(Debug, Clone, Copy, PartialEq, Eq, Structural)]
pub enum ChannelPoll {
    /// An update was waiting; it has been taken out of the channel.
    Update(ProgressUpdate),
    /// Nothing was waiting.
    Empty,
    /// The sender is gone: the file is finished.
    Disconnected,
}

/// What a cycle of the multiplexor yields.
pub struct CycleOutcome {
    /// The progress events to forward, in the order of the channels.
    pub messages: Vec<UiMessage>,
    /// The paths whose channels are retired.
    pub retired: Vec<String>,
    /// Whether the clock of the forward interval restarts.
    pub restart_clock: bool,
}

/// What was found on the channel at `index`; nothing, where no poll is given
/// for it.
pub open spec fn spec_poll_at(polls: Seq<ChannelPoll>, index: int) -> ChannelPoll {
    if 0 <= index < polls.len() {
        polls[index]
    } else {
        ChannelPoll::Empty
    }
}

/// The progress events of the first `count` channels: one for every channel
/// on which an update was found.
pub open spec fn spec_forwarded(channels: Seq<String>, polls: Seq<ChannelPoll>, count: nat) -> Seq<
    UiMessage,
>
    decreases count,
{
    if count == 0 {
        Seq::empty()
    } else {
        let before = spec_forwarded(channels, polls, (count - 1) as nat);
        match spec_poll_at(polls, count - 1) {
            ChannelPoll::Update(update) => before.push(
                UiMessage::Progress {
                    path: channels[count - 1],
                    processed: update.processed,
                    total: update.total,
                },
            ),
            _ => before,
        }
    }
}

/// Those of the first `count` channels whose sender is gone, if `gone`, or
/// still there, if not.
pub open spec fn spec_channels_where(
    channels: Seq<String>,
    polls: Seq<ChannelPoll>,
    count: nat,
    gone: bool,
) -> Seq<String>
    decreases count,
{
    if count == 0 {
        Seq::empty()
    } else {
        let before = spec_channels_where(channels, polls, (count - 1) as nat, gone);
        if (spec_poll_at(polls, count - 1) == ChannelPoll::Disconnected) == gone {
            before.push(channels[count - 1])
        } else {
            before
        }
    }
}

/// Gathers the progress of many files into one stream that is forwarded at a
/// bounded rate. It keeps the registry of the files whose progress channels
/// are open; the channels themselves are held by the embedding program.
pub struct ProgressMultiplexor {
    channels: Vec<String>,
}

impl ProgressMultiplexor {
    /// The paths of the open channels, in the order of their registration.
    pub closed spec fn channels(&self) -> Seq<String> {
        self.channels@
    }

    /// Whether a channel is registered for `path`.
    pub open spec fn spec_registered(&self, path: Seq<char>) -> bool {
        exists|i: int| 0 <= i < self.channels().len() && (#[trigger] self.channels()[i])@ == path
    }

    /// A multiplexor without channels.
    pub fn new() -> (mux: Self)
        ensures
            mux.channels() == Seq::<String>::empty(),
    {
        ProgressMultiplexor { channels: Vec::new() }
    }

    /// Whether no channel is open, so that the loop may wait for a
    /// registration instead of polling.
    pub fn is_idle(&self) -> (idle: bool)
        ensures
            idle == (self.channels().len() == 0),
    {
        self.channels.len() == 0
    }

    /// The number of open channels.
    pub fn channel_count(&self) -> (count: usize)
        ensures
            count == self.channels().len(),
    {
        self.channels.len()
    }

    /// The path of the channel at `index`.
    pub fn channel_at(&self, index: usize) -> (path: &String)
        requires
            index < self.channels().len(),
        ensures
            *path == self.channels()[index as int],
    {
        &self.channels[index]
    }

    /// Registers the channel of `path`. A path that is registered keeps its
    /// place; its channel is replaced by the new one.
    pub fn register(&mut self, path: String) -> (replaced: bool)
        ensures
            replaced == old(self).spec_registered(path@),
            replaced ==> final(self).channels() == old(self).channels(),
            !replaced ==> final(self).channels() == old(self).channels().push(path),
    {
        let mut i: usize = 0;
        while i < self.channels.len()
            invariant
                i <= self.channels.len(),
                self.channels@ == old(self).channels(),
                forall|j: int| 0 <= j < i ==> (#[trigger] self.channels@[j])@ != path@,
            decreases self.channels.len() - i,
        {
            if self.channels[i] == path {
                return true;
            }
            i += 1;
        }
        self.channels.push(path);
        false
    }

    /// Runs one cycle. `polls` holds what one look at each channel found, in
    /// the order of the channels; `elapsed_ms` is the time since progress was
    /// last forwarded. Where the forward interval has passed, every update
    /// found is forwarded and the clock restarts; otherwise the updates found
    /// are dropped. Channels whose sender is gone are retired either way.
    pub fn cycle(&mut self, elapsed_ms: u64, polls: &Vec<ChannelPoll>) -> (outcome: CycleOutcome)
        ensures
            outcome.restart_clock == (elapsed_ms >= FORWARD_INTERVAL_MS),
            outcome.messages@ == (if elapsed_ms >= FORWARD_INTERVAL_MS {
                spec_forwarded(old(self).channels(), polls@, old(self).channels().len())
            } else {
                Seq::<UiMessage>::empty()
            }),
            outcome.retired@ == spec_channels_where(
                old(self).channels(),
                polls@,
                old(self).channels().len(),
                true,
            ),
            final(self).channels() == spec_channels_where(
                old(self).channels(),
                polls@,
                old(self).channels().len(),
                false,
            ),
    {
        let due = elapsed_ms >= FORWARD_INTERVAL_MS;
        let mut all: Vec<String> = Vec::new();
        core::mem::swap(&mut self.channels, &mut all);
        let mut messages: Vec<UiMessage> = Vec::new();
        let mut retired: Vec<String> = Vec::new();
        let mut kept: Vec<String> = Vec::new();
        let mut i: usize = 0;
        while i < all.len()
            invariant
                i <= all.len(),
                all@ == old(self).channels(),
                due == (elapsed_ms >= FORWARD_INTERVAL_MS),
                messages@ == (if due {
                    spec_forwarded(all@, polls@, i as nat)
                } else {
                    Seq::<UiMessage>::empty()
                }),
                retired@ == spec_channels_where(all@, polls@, i as nat, true),
                kept@ == spec_channels_where(all@, polls@, i as nat, false),
            decreases all.len() - i,
        {
            let poll = if i < polls.len() {
                polls[i]
            } else {
                ChannelPoll::Empty
            };
            assert(poll == spec_poll_at(polls@, i as int));
            match poll {
                ChannelPoll::Update(update) => {
                    if due {
                        messages.push(
                            UiMessage::Progress {
                                path: all[i].clone(),
                                processed: update.processed,
                                total: update.total,
                            },
                        );
                    }
                    kept.push(all[i].clone());
                },
                ChannelPoll::Empty => {
                    kept.push(all[i].clone());
                },
                ChannelPoll::Disconnected => {
                    retired.push(all[i].clone());
                },
            }
            i += 1;
        }
        self.channels = kept;
        CycleOutcome { messages, retired, restart_clock: due }
    }
}

/// A cycle loses no channel and invents none: every channel is either kept
/// or retired, and it is retired exactly when its sender was found gone.
pub proof fn lemma_cycle_partitions(channels: Seq<String>, polls: Seq<ChannelPoll>, count: nat)
    requires
        count <= channels.len(),
    ensures
        spec_channels_where(channels, polls, count, true).len() + spec_channels_where(
            channels,
            polls,
            count,
            false,
        ).len() == count,
        forall|i: int|
            0 <= i < count ==> (if spec_poll_at(polls, i) == ChannelPoll::Disconnected {
                spec_channels_where(channels, polls, count, true).contains(#[trigger] channels[i])
            } else {
                spec_channels_where(channels, polls, count, false).contains(channels[i])
            }),
        forall|p: String| #[trigger]
            spec_channels_where(channels, polls, count, true).contains(p) ==> exists|i: int|
                0 <= i < count && channels[i] == p && spec_poll_at(polls, i)
                    == ChannelPoll::Disconnected,
    decreases count,
{
    if count > 0 {
        let before = (count - 1) as nat;
        lemma_cycle_partitions(channels, polls, before);
        let gone_before = spec_channels_where(channels, polls, before, true);
        let kept_before = spec_channels_where(channels, polls, before, false);
        let gone = spec_channels_where(channels, polls, count, true);
        let kept = spec_channels_where(channels, polls, count, false);
        let last = channels[count - 1];
        assert forall|i: int| 0 <= i < count implies (if spec_poll_at(polls, i)
            == ChannelPoll::Disconnected {
            gone.contains(#[trigger] channels[i])
        } else {
            kept.contains(channels[i])
        }) by {
            if i < count - 1 {
                if spec_poll_at(polls, i) == ChannelPoll::Disconnected {
                    let j = choose|j: int| 0 <= j < gone_before.len() && gone_before[j] == channels[i];
                    assert(gone[j] == channels[i]);
                } else {
                    let j = choose|j: int| 0 <= j < kept_before.len() && kept_before[j] == channels[i];
                    assert(kept[j] == channels[i]);
                }
            } else {
                if spec_poll_at(polls, i) == ChannelPoll::Disconnected {
                    assert(gone[gone.len() - 1] == last);
                } else {
                    assert(kept[kept.len() - 1] == last);
                }
            }
        }
        assert forall|p: String| #[trigger] gone.contains(p) implies exists|i: int|
            0 <= i < count && channels[i] == p && spec_poll_at(polls, i)
                == ChannelPoll::Disconnected by {
            let j = choose|j: int| 0 <= j < gone.len() && gone[j] == p;
            if j < gone_before.len() {
                assert(gone_before[j] == p);
                assert(gone_before.contains(p));
            } else {
                assert(channels[count - 1] == p);
            }
        }
    }
}

} // verus!

verus! {

/// No stale entry outlives its job: an entry found for a file is either
/// served or deleted. Every step after which all digests are awaited although
/// an entry was found asks for the deletion of the entry before the digests
/// are computed, whether the metadata or the fast digest showed it stale.
pub proof fn lemma_stale_entries_are_invalidated(state: JobState, event: JobEvent)
    requires
        state.stage != JobStage::AwaitingDigests,
        state.entry.is_some(),
        spec_step(state, event).state.stage == JobStage::AwaitingDigests,
    ensures
        spec_step(state, event).next == NextAction::InvalidateThenComputeAll,
{
}

/// A job without an entry never asks for a deletion.
pub proof fn lemma_nothing_to_invalidate(state: JobState, event: JobEvent)
    requires
        state.entry.is_none(),
        state.stage != JobStage::AwaitingFastDigest,
    ensures
        spec_step(state, event).next != NextAction::InvalidateThenComputeAll,
{
}

} // verus!
