//! Progress of a batch: the bytes of finished files and the bytes read so far
//! of the files under way, as one fraction of the batch total.
//!
//! The tracker is a plain value. Callers that share it between threads put
//! it behind a lock; every interleaving of their calls is then one sequence
//! of the operations below, and the laws at the end of this file hold of
//! every such sequence.

use vstd::prelude::*;
use crate::pathmap::{PathMap, spec_position, lemma_position, lemma_position_of_index};

verus! {

/// How far one file has come.
#[derive(Debug, Clone, Copy, PartialEq, Eq, Structural)]
pub struct FileProgress {
    /// Bytes read so far.
    pub processed: u64,
    /// The size of the file.
    pub total: u64,
}

/// The bytes read so far of the files under way.
pub open spec fn spec_live_processed(files: Seq<FileProgress>) -> int
    decreases files.len(),
{
    if files.len() == 0 {
        0
    } else {
        spec_live_processed(files.drop_last()) + files.last().processed
    }
}

/// The sizes of the files under way.
pub open spec fn spec_live_total(files: Seq<FileProgress>) -> int
    decreases files.len(),
{
    if files.len() == 0 {
        0
    } else {
        spec_live_total(files.drop_last()) + files.last().total
    }
}

/// The state of a tracker as plain values.
pub struct TrackerState {
    /// The sizes of the files finished, added up modulo 2^64.
    pub completed: u64,
    /// The total of the batch.
    pub total: u64,
    /// The paths of the files under way, each once.
    pub paths: Seq<Seq<char>>,
    /// The progress of the files under way, each at the index of its path.
    pub files: Seq<FileProgress>,
}

impl TrackerState {
    pub open spec fn wf(self) -> bool {
        self.paths.len() == self.files.len() && self.paths.no_duplicates()
    }

    /// The index of `path` among the files under way, or -1.
    pub open spec fn index_of(self, path: Seq<char>) -> int {
        spec_position(self.paths, path)
    }

    /// The bytes counted as done: those of finished files and those read so
    /// far of the files under way.
    pub open spec fn done_bytes(self) -> int {
        self.completed + spec_live_processed(self.files)
    }

    /// The bytes shown as done of the total: the bytes counted as done, cut
    /// at the total, so that the progress of a batch never passes 1; and 0
    /// where the total is 0.
    pub open spec fn shown_bytes(self) -> int {
        if self.total == 0 {
            0
        } else if self.done_bytes() >= self.total {
            self.total as int
        } else {
            self.done_bytes()
        }
    }

    /// The bytes registered with the tracker: the sizes of the finished files
    /// and of the files under way.
    pub open spec fn registered_bytes(self) -> int {
        self.completed + spec_live_total(self.files)
    }

    /// No file under way has read more than its size.
    pub open spec fn within_sizes(self) -> bool {
        forall|i: int| 0 <= i < self.files.len() ==> (#[trigger] self.files[i]).processed
            <= self.files[i].total
    }

    /// The state after `start_file`: the file is under way with nothing
    /// read. A file that was under way starts again in its place.
    pub open spec fn start(self, path: Seq<char>, total: u64) -> TrackerState {
        let fresh = FileProgress { processed: 0, total };
        let at = self.index_of(path);
        if at >= 0 {
            TrackerState { files: self.files.update(at, fresh), ..self }
        } else {
            TrackerState { paths: self.paths.push(path), files: self.files.push(fresh), ..self }
        }
    }

    /// The state after `update_progress`: the file has read `processed`
    /// bytes. A file that is not under way is ignored.
    pub open spec fn update(self, path: Seq<char>, processed: u64) -> TrackerState {
        let at = self.index_of(path);
        if at >= 0 {
            TrackerState {
                files: self.files.update(
                    at,
                    FileProgress { processed, total: self.files[at].total },
                ),
                ..self
            }
        } else {
            self
        }
    }

    /// The state after `complete_file`: the file leaves the files under way
    /// and its whole size joins the finished bytes, in one step. A file that
    /// is not under way is ignored.
    pub open spec fn complete(self, path: Seq<char>) -> TrackerState {
        let at = self.index_of(path);
        if at >= 0 {
            TrackerState {
                completed: ((self.completed + self.files[at].total) % 0x1_0000_0000_0000_0000) as u64,
                paths: self.paths.remove(at),
                files: self.files.remove(at),
                ..self
            }
        } else {
            self
        }
    }
}

/// Gathers the progress of the files of one batch.
pub struct ProgressTracker {
    processed_bytes: u64,
    total_bytes: u64,
    in_progress: PathMap<FileProgress>,
}

impl View for ProgressTracker {
    type V = TrackerState;

    closed spec fn view(&self) -> TrackerState {
        TrackerState {
            completed: self.processed_bytes,
            total: self.total_bytes,
            paths: self.in_progress.keys(),
            files: self.in_progress.vals(),
        }
    }
}

impl ProgressTracker {
    pub closed spec fn wf(&self) -> bool {
        self.in_progress.wf()
    }

    /// A well-formed tracker has a well-formed state.
    pub proof fn lemma_wf(&self)
        requires
            self.wf(),
        ensures
            self@.wf(),
    {
    }

    /// A tracker of an empty batch.
    pub fn new() -> (tracker: Self)
        ensures
            tracker.wf(),
            tracker@ == (TrackerState {
                completed: 0,
                total: 0,
                paths: Seq::empty(),
                files: Seq::empty(),
            }),
    {
        ProgressTracker { processed_bytes: 0, total_bytes: 0, in_progress: PathMap::new() }
    }

    /// Sets the total of the batch.
    pub fn set_total(&mut self, total: u64)
        requires
            old(self).wf(),
        ensures
            final(self).wf(),
            final(self)@ == (TrackerState { total, ..old(self)@ }),
    {
        self.total_bytes = total;
    }

    /// A file of `total` bytes is under way, with nothing read yet.
    pub fn start_file(&mut self, path: String, total: u64)
        requires
            old(self).wf(),
        ensures
            final(self).wf(),
            final(self)@ == old(self)@.start(path@, total),
    {
        self.in_progress.insert(path, FileProgress { processed: 0, total });
    }

    /// The file at `path` has read `processed` bytes.
    pub fn update_progress(&mut self, path: &String, processed: u64)
        requires
            old(self).wf(),
        ensures
            final(self).wf(),
            final(self)@ == old(self)@.update(path@, processed),
    {
        match self.in_progress.position(path) {
            Some(i) => {
                let total = self.in_progress.value_at(i).total;
                self.in_progress.set_value_at(i, FileProgress { processed, total });
            },
            None => {},
        }
    }

    /// The file at `path` is finished.
    pub fn complete_file(&mut self, path: &String)
        requires
            old(self).wf(),
        ensures
            final(self).wf(),
            final(self)@ == old(self)@.complete(path@),
    {
        match self.in_progress.remove(path) {
            Some(progress) => {
                self.processed_bytes = self.processed_bytes.wrapping_add(progress.total);
            },
            None => {},
        }
    }

    /// Forgets the batch.
    pub fn reset(&mut self)
        requires
            old(self).wf(),
        ensures
            final(self).wf(),
            final(self)@ == (TrackerState {
                completed: 0,
                total: 0,
                paths: Seq::empty(),
                files: Seq::empty(),
            }),
    {
        self.processed_bytes = 0;
        self.total_bytes = 0;
        self.in_progress.clear();
    }

    /// The bytes of the files finished.
    pub fn get_processed_bytes(&self) -> (bytes: u64)
        ensures
            bytes == self@.completed,
    {
        self.processed_bytes
    }

    /// The total of the batch.
    pub fn get_total_bytes(&self) -> (bytes: u64)
        ensures
            bytes == self@.total,
    {
        self.total_bytes
    }

    /// The number of files under way.
    pub fn get_in_progress_count(&self) -> (count: usize)
        requires
            self.wf(),
        ensures
            count == self@.files.len(),
            count == self@.paths.len(),
    {
        self.in_progress.len()
    }

    /// The bytes counted as done: those of the files finished and those read
    /// so far of the files under way.
    pub fn get_done_bytes(&self) -> (done: u128)
        requires
            self.wf(),
        ensures
            done == self@.done_bytes(),
    {
        let n = self.in_progress.len();
        let mut live: u128 = 0;
        let mut i: usize = 0;
        assert(self@.files.take(0) =~= Seq::<FileProgress>::empty());
        while i < n
            invariant
                i <= n,
                n == self@.files.len(),
                self.wf(),
                live == spec_live_processed(self@.files.take(i as int)),
                live <= i * 0xFFFF_FFFF_FFFF_FFFF,
            decreases n - i,
        {
            proof {
                assert(self@.files.take(i + 1).drop_last() =~= self@.files.take(i as int));
                assert(self@.files.take(i + 1).last() == self@.files[i as int]);
                assert(i * 0xFFFF_FFFF_FFFF_FFFF + 0xFFFF_FFFF_FFFF_FFFF == (i + 1)
                    * 0xFFFF_FFFF_FFFF_FFFF) by (nonlinear_arith);
                assert(n * 0xFFFF_FFFF_FFFF_FFFF <= 0xFFFF_FFFF_FFFF_FFFF * 0xFFFF_FFFF_FFFF_FFFF)
                    by (nonlinear_arith)
                    requires
                        n <= 0xFFFF_FFFF_FFFF_FFFF,
                ;
                assert((i + 1) * 0xFFFF_FFFF_FFFF_FFFF <= n * 0xFFFF_FFFF_FFFF_FFFF)
                    by (nonlinear_arith)
                    requires
                        i + 1 <= n,
                ;
            }
            let file = self.in_progress.value_at(i);
            live = live + file.processed as u128;
            i += 1;
        }
        assert(self@.files.take(n as int) =~= self@.files);
        proof {
            assert(n * 0xFFFF_FFFF_FFFF_FFFF <= 0xFFFF_FFFF_FFFF_FFFF * 0xFFFF_FFFF_FFFF_FFFF)
                by (nonlinear_arith)
                requires
                    n <= 0xFFFF_FFFF_FFFF_FFFF,
            ;
        }
        self.processed_bytes as u128 + live
    }

    /// The progress of the batch as a fraction between 0 and 1: the bytes
    /// shown as done over the total of the batch. The numerator never passes
    /// the denominator, and it is 0 where the total is 0, where the fraction
    /// stands for 0.
    pub fn get_progress_ratio(&self) -> (ratio: (u64, u64))
        requires
            self.wf(),
        ensures
            ratio.0 == self@.shown_bytes(),
            ratio.1 == self@.total,
            ratio.0 <= ratio.1,
    {
        let done = self.get_done_bytes();
        let total = self.total_bytes;
        if total == 0 {
            (0, 0)
        } else if done >= total as u128 {
            (total, total)
        } else {
            (done as u64, total)
        }
    }

    /// Whether the progress of the batch is exactly 1: the total is not 0 and
    /// the bytes counted as done have reached it.
    pub fn is_complete(&self) -> (complete: bool)
        requires
            self.wf(),
        ensures
            complete == (self@.total > 0 && self@.shown_bytes() == self@.total),
            complete == (self@.total > 0 && self@.done_bytes() >= self@.total),
    {
        let (shown, total) = self.get_progress_ratio();
        total > 0 && shown == total
    }
}

impl Default for ProgressTracker {
    fn default() -> (tracker: Self)
        ensures
            tracker.wf(),
            tracker@ == (TrackerState {
                completed: 0,
                total: 0,
                paths: Seq::empty(),
                files: Seq::empty(),
            }),
    {
        ProgressTracker::new()
    }
}

} // verus!

verus! {

/// Replacing one file's progress changes the bytes read so far by the
/// difference of the two readings, and the sizes by the difference of the two
/// sizes.
pub proof fn lemma_live_update(files: Seq<FileProgress>, at: int, file: FileProgress)
    requires
        0 <= at < files.len(),
    ensures
        spec_live_processed(files.update(at, file)) == spec_live_processed(files)
            - files[at].processed + file.processed,
        spec_live_total(files.update(at, file)) == spec_live_total(files) - files[at].total
            + file.total,
    decreases files.len(),
{
    let changed = files.update(at, file);
    if at == files.len() - 1 {
        assert(changed.drop_last() =~= files.drop_last());
    } else {
        lemma_live_update(files.drop_last(), at, file);
        assert(changed.drop_last() =~= files.drop_last().update(at, file));
    }
}

/// Taking one file out lowers the bytes read so far by its reading and the
/// sizes by its size.
pub proof fn lemma_live_remove(files: Seq<FileProgress>, at: int)
    requires
        0 <= at < files.len(),
    ensures
        spec_live_processed(files.remove(at)) == spec_live_processed(files) - files[at].processed,
        spec_live_total(files.remove(at)) == spec_live_total(files) - files[at].total,
    decreases files.len(),
{
    let rest = files.remove(at);
    if at == files.len() - 1 {
        assert(rest =~= files.drop_last());
    } else {
        lemma_live_remove(files.drop_last(), at);
        assert(rest.drop_last() =~= files.drop_last().remove(at));
        assert(rest.last() == files.last());
    }
}

/// Adding a file raises the bytes read so far by its reading and the sizes by
/// its size.
pub proof fn lemma_live_push(files: Seq<FileProgress>, file: FileProgress)
    ensures
        spec_live_processed(files.push(file)) == spec_live_processed(files) + file.processed,
        spec_live_total(files.push(file)) == spec_live_total(files) + file.total,
{
    assert(files.push(file).drop_last() =~= files);
}

/// Where no file has read more than its size, the bytes read so far are at
/// most the sizes, and they are the sizes exactly when every file under way
/// has been read to its end.
pub proof fn lemma_live_bounds(files: Seq<FileProgress>)
    requires
        forall|i: int| 0 <= i < files.len() ==> (#[trigger] files[i]).processed <= files[i].total,
    ensures
        0 <= spec_live_processed(files) <= spec_live_total(files),
        spec_live_processed(files) == spec_live_total(files) <==> forall|i: int|
            0 <= i < files.len() ==> (#[trigger] files[i]).processed == files[i].total,
    decreases files.len(),
{
    if files.len() > 0 {
        let before = files.drop_last();
        assert forall|i: int| 0 <= i < before.len() implies (#[trigger] before[i]).processed
            <= before[i].total by {
            assert(before[i] == files[i]);
        }
        lemma_live_bounds(before);
        if spec_live_processed(files) == spec_live_total(files) {
            assert forall|i: int| 0 <= i < files.len() implies (#[trigger] files[i]).processed
                == files[i].total by {
                if i < files.len() - 1 {
                    assert(before[i] == files[i]);
                }
            }
        }
        if forall|i: int| 0 <= i < files.len() ==> (#[trigger] files[i]).processed
            == files[i].total {
            assert forall|i: int| 0 <= i < before.len() implies (#[trigger] before[i]).processed
                == before[i].total by {
                assert(before[i] == files[i]);
            }
        }
    }
}

/// The operations keep the state well formed.
pub proof fn lemma_operations_keep_wf(state: TrackerState, path: Seq<char>, value: u64)
    requires
        state.wf(),
    ensures
        state.start(path, value).wf(),
        state.update(path, value).wf(),
        state.complete(path).wf(),
{
    lemma_position(state.paths, path);
}

/// Starting a file that is not under way never lowers the bytes counted as
/// done, and raises the bytes registered by the size of the file.
pub proof fn lemma_start_fresh(state: TrackerState, path: Seq<char>, total: u64)
    requires
        state.wf(),
        state.index_of(path) < 0,
    ensures
        state.start(path, total).done_bytes() == state.done_bytes(),
        state.start(path, total).registered_bytes() == state.registered_bytes() + total,
        state.within_sizes() ==> state.start(path, total).within_sizes(),
{
    lemma_live_push(state.files, FileProgress { processed: 0, total });
}

/// A progress report that does not go back never lowers the bytes counted as
/// done, and leaves the bytes registered as they are.
pub proof fn lemma_update_monotonic(state: TrackerState, path: Seq<char>, processed: u64)
    requires
        state.wf(),
        state.index_of(path) >= 0 ==> state.files[state.index_of(path)].processed <= processed,
    ensures
        state.update(path, processed).done_bytes() >= state.done_bytes(),
        state.update(path, processed).registered_bytes() == state.registered_bytes(),
        state.within_sizes() && (state.index_of(path) >= 0 ==> processed
            <= state.files[state.index_of(path)].total) ==> state.update(
            path,
            processed,
        ).within_sizes(),
{
    lemma_position(state.paths, path);
    let at = state.index_of(path);
    if at >= 0 {
        lemma_live_update(
            state.files,
            at,
            FileProgress { processed, total: state.files[at].total },
        );
    }
}

/// Completing a file that has not read more than its size never lowers the
/// bytes counted as done, and leaves the bytes registered as they are, as
/// long as the finished bytes fit in 64 bits. Completing a file that is not
/// under way changes nothing: no file is counted twice.
pub proof fn lemma_complete_monotonic(state: TrackerState, path: Seq<char>)
    requires
        state.wf(),
        state.within_sizes(),
        state.registered_bytes() <= u64::MAX,
    ensures
        state.complete(path).done_bytes() >= state.done_bytes(),
        state.complete(path).registered_bytes() == state.registered_bytes(),
        state.complete(path).within_sizes(),
        state.index_of(path) < 0 ==> state.complete(path) == state,
        state.index_of(path) >= 0 ==> state.complete(path).index_of(path) < 0,
{
    lemma_position(state.paths, path);
    let at = state.index_of(path);
    if at >= 0 {
        lemma_live_remove(state.files, at);
        lemma_live_bounds(state.files);
        let rest = state.files.remove(at);
        assert forall|i: int| 0 <= i < rest.len() implies (#[trigger] rest[i]).processed
            <= rest[i].total by {
            if i < at {
                assert(rest[i] == state.files[i]);
            } else {
                assert(rest[i] == state.files[i + 1]);
            }
        }
        lemma_live_bounds(rest);
        assert(state.completed + state.files[at].total <= u64::MAX);
        let after = state.complete(path);
        lemma_position(after.paths, path);
        if after.index_of(path) >= 0 {
            let p = after.index_of(path);
            if p < at {
                assert(state.paths[p] == path);
            } else {
                assert(state.paths[p + 1] == path);
            }
        }
    }
}

/// The progress of a batch is 1 exactly when nothing is left to read: where
/// the total of the batch is the bytes registered and no file has read more
/// than its size, the bytes counted as done never pass the total, they are
/// the total once every file is finished, and they are the total only if
/// every file still under way has been read to its end.
pub proof fn lemma_complete_exactly_at_total(state: TrackerState)
    requires
        state.wf(),
        state.within_sizes(),
        state.registered_bytes() == state.total,
    ensures
        state.done_bytes() <= state.total,
        state.total > 0 ==> state.shown_bytes() == state.done_bytes(),
        state.files.len() == 0 ==> state.done_bytes() == state.total,
        state.done_bytes() == state.total <==> forall|i: int|
            0 <= i < state.files.len() ==> (#[trigger] state.files[i]).processed
                == state.files[i].total,
{
    lemma_live_bounds(state.files);
}

/// One call on a tracker.
pub enum TrackerOp {
    Start { path: Seq<char>, total: u64 },
    Update { path: Seq<char>, processed: u64 },
    Complete { path: Seq<char> },
}

/// The state after one call.
pub open spec fn spec_apply(state: TrackerState, op: TrackerOp) -> TrackerState {
    match op {
        TrackerOp::Start { path, total } => state.start(path, total),
        TrackerOp::Update { path, processed } => state.update(path, processed),
        TrackerOp::Complete { path } => state.complete(path),
    }
}

/// The state after a sequence of calls.
pub open spec fn spec_run(state: TrackerState, ops: Seq<TrackerOp>) -> TrackerState
    decreases ops.len(),
{
    if ops.len() == 0 {
        state
    } else {
        spec_apply(spec_run(state, ops.drop_last()), ops.last())
    }
}

/// The sizes of the files that a sequence of calls starts.
pub open spec fn spec_started_bytes(ops: Seq<TrackerOp>) -> int
    decreases ops.len(),
{
    if ops.len() == 0 {
        0
    } else {
        spec_started_bytes(ops.drop_last()) + match ops.last() {
            TrackerOp::Start { total, .. } => total as int,
            _ => 0,
        }
    }
}

/// Whether a sequence of calls is orderly: no file is started while it is
/// under way, and no report claims more than the size of its file.
pub open spec fn spec_orderly(state: TrackerState, ops: Seq<TrackerOp>) -> bool
    decreases ops.len(),
{
    if ops.len() == 0 {
        true
    } else {
        let before = spec_run(state, ops.drop_last());
        &&& spec_orderly(state, ops.drop_last())
        &&& match ops.last() {
            TrackerOp::Start { path, .. } => before.index_of(path) < 0,
            TrackerOp::Update { path, processed } => before.index_of(path) >= 0 ==> processed
                <= before.files[before.index_of(path)].total,
            TrackerOp::Complete { .. } => true,
        }
    }
}

/// No byte is lost or counted twice, whatever the order of the calls: after
/// an orderly sequence of calls on a well-formed tracker whose files fit in
/// 64 bits together, the bytes registered are those registered before plus
/// the sizes of the files started. Once every file started has been
/// completed, the finished bytes are exactly that sum; where the total of the
/// batch was set to it, the progress is exactly 1.
pub proof fn lemma_no_byte_lost(state: TrackerState, ops: Seq<TrackerOp>)
    requires
        state.wf(),
        state.within_sizes(),
        spec_orderly(state, ops),
        state.registered_bytes() + spec_started_bytes(ops) <= u64::MAX,
    ensures
        spec_run(state, ops).wf(),
        spec_run(state, ops).within_sizes(),
        spec_run(state, ops).total == state.total,
        spec_run(state, ops).registered_bytes() == state.registered_bytes() + spec_started_bytes(
            ops,
        ),
        spec_run(state, ops).files.len() == 0 ==> spec_run(state, ops).completed
            == state.registered_bytes() + spec_started_bytes(ops),
        spec_run(state, ops).files.len() == 0 && state.total == state.registered_bytes()
            + spec_started_bytes(ops) ==> spec_run(state, ops).done_bytes() == spec_run(
            state,
            ops,
        ).total,
    decreases ops.len(),
{
    if ops.len() > 0 {
        let earlier = ops.drop_last();
        assert(spec_started_bytes(earlier) <= spec_started_bytes(ops));
        lemma_no_byte_lost(state, earlier);
        let before = spec_run(state, earlier);
        match ops.last() {
            TrackerOp::Start { path, total } => {
                lemma_operations_keep_wf(before, path, total);
                lemma_start_fresh(before, path, total);
            },
            TrackerOp::Update { path, processed } => {
                lemma_operations_keep_wf(before, path, processed);
                lemma_position(before.paths, path);
                let at = before.index_of(path);
                if at >= 0 {
                    let file = FileProgress { processed, total: before.files[at].total };
                    lemma_live_update(before.files, at, file);
                    assert forall|i: int| 0 <= i < before.files.len() implies (
                    #[trigger] before.files.update(at, file)[i]).processed <= before.files.update(
                        at,
                        file,
                    )[i].total by {
                        if i != at {
                            assert(before.files.update(at, file)[i] == before.files[i]);
                        }
                    }
                }
            },
            TrackerOp::Complete { path } => {
                lemma_operations_keep_wf(before, path, 0);
                lemma_complete_monotonic(before, path);
            },
        }
    }
}

/// Within an orderly batch the progress never goes back: a call that starts a
/// file not under way, reports a reading that is not below the last, or
/// completes a file leaves at least as many bytes counted as done as before.
pub proof fn lemma_progress_never_goes_back(state: TrackerState, op: TrackerOp)
    requires
        state.wf(),
        state.within_sizes(),
        state.registered_bytes() <= u64::MAX,
        match op {
            TrackerOp::Start { path, .. } => state.index_of(path) < 0,
            TrackerOp::Update { path, processed } => state.index_of(path) >= 0
                ==> state.files[state.index_of(path)].processed <= processed,
            TrackerOp::Complete { .. } => true,
        },
    ensures
        spec_apply(state, op).done_bytes() >= state.done_bytes(),
        spec_apply(state, op).total == state.total,
        spec_apply(state, op).shown_bytes() >= state.shown_bytes(),
        0 <= state.shown_bytes() <= state.total,
{
    lemma_live_bounds(state.files);
    match op {
        TrackerOp::Start { path, total } => {
            lemma_start_fresh(state, path, total);
        },
        TrackerOp::Update { path, processed } => {
            lemma_update_monotonic(state, path, processed);
        },
        TrackerOp::Complete { path } => {
            lemma_complete_monotonic(state, path);
        },
    }
}

} // verus!

verus! {

/// Whether no report of a sequence of calls goes back: every report of a file
/// under way claims at least what the file had read before.
pub open spec fn spec_reports_go_forward(state: TrackerState, ops: Seq<TrackerOp>) -> bool {
    forall|i: int|
        0 <= i < ops.len() ==> (#[trigger] ops[i] matches TrackerOp::Update { path, processed }
            ==> {
            let before = spec_run(state, ops.take(i));
            before.index_of(path) >= 0 ==> before.files[before.index_of(path)].processed
                <= processed
        })
}

/// Within one batch the progress never goes back. After an orderly sequence
/// of calls whose reports go forward, on a tracker whose files fit in 64 bits
/// together, the bytes counted as done, and the bytes shown of the total, are
/// at least what they were after any earlier part of the sequence; the total
/// is the same, and the bytes shown never pass it.
pub proof fn lemma_batch_progress_never_goes_back(
    state: TrackerState,
    ops: Seq<TrackerOp>,
    earlier: int,
)
    requires
        state.wf(),
        state.within_sizes(),
        spec_orderly(state, ops),
        spec_reports_go_forward(state, ops),
        state.registered_bytes() + spec_started_bytes(ops) <= u64::MAX,
        0 <= earlier <= ops.len(),
    ensures
        spec_run(state, ops).done_bytes() >= spec_run(state, ops.take(earlier)).done_bytes(),
        spec_run(state, ops).shown_bytes() >= spec_run(state, ops.take(earlier)).shown_bytes(),
        spec_run(state, ops).total == spec_run(state, ops.take(earlier)).total,
        0 <= spec_run(state, ops).shown_bytes() <= spec_run(state, ops).total,
    decreases ops.len(),
{
    lemma_no_byte_lost(state, ops);
    lemma_live_bounds(spec_run(state, ops).files);
    if earlier == ops.len() {
        assert(ops.take(earlier) =~= ops);
    } else {
        let shorter = ops.drop_last();
        assert(shorter.take(earlier) =~= ops.take(earlier));
        assert(spec_started_bytes(shorter) <= spec_started_bytes(ops));
        assert(spec_reports_go_forward(state, shorter)) by {
            assert forall|i: int| 0 <= i < shorter.len() implies (
            #[trigger] shorter[i] matches TrackerOp::Update { path, processed } ==> {
                let before = spec_run(state, shorter.take(i));
                before.index_of(path) >= 0 ==> before.files[before.index_of(path)].processed
                    <= processed
            }) by {
                assert(shorter[i] == ops[i]);
                assert(shorter.take(i) =~= ops.take(i));
            }
        }
        lemma_batch_progress_never_goes_back(state, shorter, earlier);
        lemma_no_byte_lost(state, shorter);
        let before = spec_run(state, shorter);
        let last = ops.len() - 1;
        assert(ops[last] == ops.last());
        assert(ops.take(last) =~= shorter);
        lemma_progress_never_goes_back(before, ops.last());
    }
}

} // verus!
