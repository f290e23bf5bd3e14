//! The hashing engine: how a file is read depending on its size, how its
//! bytes reach the digests, and when progress is reported.
//!
//! The functions that take a byte slice hash data held in memory. A file too
//! large for that is streamed by the embedding program through a
//! [`HashJob`] or an [`Xxh3Job`], in reads of the size that [`ReadPlan`]
//! gives.

use vstd::prelude::*;
use vstd::slice::slice_subrange;
use vstd::string::StringExecFns;
use crate::cache::CacheConfig;
use crate::error::{HashError, HashResult};
use crate::hash::{
    FileHasher, MAX_STREAM_BYTES, spec_crc32, spec_md5, spec_sha1, spec_u128_be_bytes,
    spec_u32_be_bytes, spec_xxh3_128, spec_xxh3_absorbed, u128_be_bytes, u32_be_bytes,
    xxh3_digest128, xxh3_new, xxh3_update,
};
use crate::text::{hex_encode, lemma_hex_encode_is_hex, spec_hex_encode, spec_is_hex_digest};

verus! {

/// Files below this size are read whole.
pub const TINY_FILE_THRESHOLD: u64 = 65_536;

/// Files from this size on are read through mapped windows.
pub const MEDIUM_FILE_THRESHOLD: u64 = 536_870_912;

pub const KIB_64: usize = 65_536;

pub const MIB: usize = 1_048_576;

pub const MIB_2: usize = 2_097_152;

pub const MIB_8: usize = 8_388_608;

pub const MIB_16: usize = 16_777_216;

pub const GIB: u64 = 1_073_741_824;

/// How far the hashing of one file has come.
#[derive(Debug, Clone, Copy, PartialEq, Eq, Structural)]
pub struct ProgressUpdate {
    pub processed: u64,
    pub total: u64,
}

/// What is known of the machine.
#[derive(Debug, Clone, Copy, PartialEq, Eq, Structural)]
pub struct SystemInfo {
    pub available_memory: u64,
    pub cpu_count: usize,
}

/// The memory assumed available where the machine cannot be asked: 4 GiB.
pub const ASSUMED_AVAILABLE_MEMORY: u64 = 4_294_967_296;

/// Calls `num_cpus::get_physical`, the number of physical cores of the
/// machine. Nothing is claimed of the number.
#[verifier::external_body]
fn physical_cpu_count() -> usize {
    num_cpus::get_physical()
}

/// `value` kept within `low` and `high`.
pub open spec fn spec_clamp(value: int, low: int, high: int) -> int {
    if value < low {
        low
    } else if value > high {
        high
    } else {
        value
    }
}

impl SystemInfo {
    /// The description of a machine from what a probe of it found. Memory
    /// that could not be measured counts as 4 GiB, and a machine has at least
    /// one core.
    pub fn from_probe(available_memory: Option<u64>, physical_cpus: usize) -> (info: Self)
        ensures
            info.available_memory == match available_memory {
                Some(bytes) => bytes,
                None => ASSUMED_AVAILABLE_MEMORY,
            },
            info.cpu_count == if physical_cpus >= 1 {
                physical_cpus
            } else {
                1
            },
    {
        SystemInfo {
            available_memory: match available_memory {
                Some(bytes) => bytes,
                None => ASSUMED_AVAILABLE_MEMORY,
            },
            cpu_count: if physical_cpus >= 1 {
                physical_cpus
            } else {
                1
            },
        }
    }

    /// Describes this machine: its physical cores, at least one, and 4 GiB of
    /// memory assumed available.
    pub fn detect() -> (info: Self)
        ensures
            info.available_memory == ASSUMED_AVAILABLE_MEMORY,
            info.cpu_count >= 1,
    {
        SystemInfo::from_probe(None, physical_cpu_count())
    }

    /// The read buffer size and the mapped window size that suit the
    /// machine: a thousandth of the available memory, kept between 64 KiB and
    /// 1 MiB, and a hundredth of it, kept between 1 MiB and 16 MiB.
    pub fn recommend_buffer_sizes(&self) -> (sizes: (usize, usize))
        ensures
            sizes.0 == spec_clamp(self.available_memory as int / 1000, KIB_64 as int, MIB as int),
            sizes.1 == spec_clamp(self.available_memory as int / 100, MIB as int, MIB_16 as int),
    {
        let thousandth: u64 = self.available_memory / 1000;
        let hundredth: u64 = self.available_memory / 100;
        let buffer_size: usize = if thousandth < 65_536 {
            KIB_64
        } else if thousandth > 1_048_576 {
            MIB
        } else {
            thousandth as usize
        };
        let mmap_chunk_size: usize = if hundredth < 1_048_576 {
            MIB
        } else if hundredth > 16_777_216 {
            MIB_16
        } else {
            hundredth as usize
        };
        (buffer_size, mmap_chunk_size)
    }
}

/// The configuration that suits the machine `info`: the default one with the
/// recommended buffer and window sizes.
pub open spec fn spec_optimal_config(info: SystemInfo) -> CacheConfig {
    CacheConfig {
        min_file_size: 1_048_576,
        retention_days: 30,
        buffer_size: spec_clamp(info.available_memory as int / 1000, KIB_64 as int, MIB as int)
            as usize,
        mmap_chunk_size: spec_clamp(
            info.available_memory as int / 100,
            MIB as int,
            MIB_16 as int,
        ) as usize,
        auto_compute_enabled: true,
        uppercase_display: true,
    }
}

/// The configuration that suits the machine `info`.
pub fn optimal_config_for(info: &SystemInfo) -> (config: CacheConfig)
    ensures
        config == spec_optimal_config(*info),
{
    let (buffer_size, mmap_chunk_size) = info.recommend_buffer_sizes();
    CacheConfig {
        min_file_size: 1_048_576,
        retention_days: 30,
        buffer_size,
        mmap_chunk_size,
        auto_compute_enabled: true,
        uppercase_display: true,
    }
}

/// The configuration that suits this machine. With 4 GiB assumed available
/// the buffer is 1 MiB and the window 16 MiB.
pub fn detect_optimal_config() -> (config: CacheConfig)
    ensures
        config == (CacheConfig {
            min_file_size: 1_048_576,
            retention_days: 30,
            buffer_size: 1_048_576,
            mmap_chunk_size: 16_777_216,
            auto_compute_enabled: true,
            uppercase_display: true,
        }),
{
    let info = SystemInfo::detect();
    optimal_config_for(&info)
}

/// How a file is read.
#[derive(Debug, Clone, Copy, PartialEq, Eq, Structural)]
pub enum Strategy {
    /// The whole file in one read.
    Tiny,
    /// Sequential reads into a buffer.
    Medium,
    /// Sequential mapped windows.
    Large,
}

/// The strategy for a file of `file_size` bytes.
pub open spec fn spec_strategy(file_size: u64) -> Strategy {
    if file_size < TINY_FILE_THRESHOLD {
        Strategy::Tiny
    } else if file_size < MEDIUM_FILE_THRESHOLD {
        Strategy::Medium
    } else {
        Strategy::Large
    }
}

/// Picks the strategy by size: below 64 KiB tiny, below 512 MiB medium, large
/// from there on.
pub fn select_strategy(file_size: u64) -> (strategy: Strategy)
    ensures
        strategy == spec_strategy(file_size),
{
    if file_size < TINY_FILE_THRESHOLD {
        Strategy::Tiny
    } else if file_size < MEDIUM_FILE_THRESHOLD {
        Strategy::Medium
    } else {
        Strategy::Large
    }
}

/// The least multiple of `unit` that is not below `value`.
pub open spec fn spec_round_up(value: int, unit: int) -> int {
    ((value + unit - 1) / unit) * unit
}

/// The smaller of two numbers.
pub open spec fn spec_min(a: int, b: int) -> int {
    if a <= b {
        a
    } else {
        b
    }
}

/// The buffer size before rounding: for files below 10 MiB a quarter of the
/// file, kept between 64 KiB and 512 KiB; for larger files twice the
/// configured size, at most 2 MiB.
pub open spec fn spec_buffer_target(file_size: u64, default_buffer_size: usize) -> int {
    if file_size < 10 * MIB {
        spec_clamp(file_size as int / 4, KIB_64 as int, 8 * KIB_64)
    } else {
        spec_min(2 * default_buffer_size, MIB_2 as int)
    }
}

/// The buffer size for a file: the target, rounded up to a multiple of
/// 64 KiB.
pub open spec fn spec_optimize_buffer_size(file_size: u64, default_buffer_size: usize) -> int {
    spec_round_up(spec_buffer_target(file_size, default_buffer_size), KIB_64 as int)
}

fn round_up(value: usize, unit: usize) -> (rounded: usize)
    requires
        unit > 0,
        value + unit <= usize::MAX,
    ensures
        rounded == spec_round_up(value as int, unit as int),
        value <= rounded < value + unit,
        rounded % unit == 0,
{
    let blocks: usize = (value + (unit - 1)) / unit;
    proof {
        let v = value as int;
        let u = unit as int;
        let b = (v + u - 1) / u;
        assert(b * u <= v + u - 1 && v + u - 1 < b * u + u && (b * u) % u == 0) by (nonlinear_arith)
            requires
                u > 0,
                b == (v + u - 1) / u,
                v >= 0,
        ;
    }
    blocks * unit
}

/// Tunes the read buffer to the file.
pub fn optimize_buffer_size(file_size: u64, default_buffer_size: usize) -> (size: usize)
    ensures
        size == spec_optimize_buffer_size(file_size, default_buffer_size),
        size % KIB_64 == 0,
        size <= MIB_2,
        file_size < 10 * MIB ==> KIB_64 <= size,
{
    let target: usize = if file_size < 10_485_760 {
        let quarter: u64 = file_size / 4;
        if quarter < 65_536 {
            KIB_64
        } else if quarter > 524_288 {
            524_288
        } else {
            quarter as usize
        }
    } else {
        if default_buffer_size >= MIB {
            MIB_2
        } else {
            default_buffer_size * 2
        }
    };
    round_up(target, KIB_64)
}

/// The window size before rounding: for files above 10 GiB four times the
/// configured size, kept between 8 MiB and 16 MiB; for other files above
/// 1 GiB 8 MiB; otherwise the configured size. No file above 1 GiB is read
/// through windows of less than 8 MiB.
pub open spec fn spec_chunk_target(file_size: u64, default_chunk_size: usize) -> int {
    if file_size > 10 * GIB {
        spec_clamp(4 * default_chunk_size, MIB_8 as int, MIB_16 as int)
    } else if file_size > GIB {
        MIB_8 as int
    } else {
        default_chunk_size as int
    }
}

/// The window size for a file: the target, rounded up to a multiple of
/// 2 MiB.
pub open spec fn spec_optimize_chunk_size(file_size: u64, default_chunk_size: usize) -> int {
    spec_round_up(spec_chunk_target(file_size, default_chunk_size), MIB_2 as int)
}

/// Whether the window size for a file can be held in a `usize`.
pub open spec fn spec_chunk_size_representable(file_size: u64, default_chunk_size: usize) -> bool {
    spec_chunk_target(file_size, default_chunk_size) + MIB_2 <= usize::MAX
}

/// Tunes the mapped window to the file.
pub fn optimize_chunk_size(file_size: u64, default_chunk_size: usize) -> (size: usize)
    requires
        spec_chunk_size_representable(file_size, default_chunk_size),
    ensures
        size == spec_optimize_chunk_size(file_size, default_chunk_size),
        size % MIB_2 == 0,
        file_size > GIB ==> MIB_8 <= size <= MIB_16,
        GIB < file_size <= 10 * GIB ==> size == MIB_8,
{
    let target: usize = if file_size > 10_737_418_240 {
        if default_chunk_size >= 4_194_304 {
            MIB_16
        } else if default_chunk_size < 2_097_152 {
            MIB_8
        } else {
            default_chunk_size * 4
        }
    } else if file_size > GIB {
        MIB_8
    } else {
        default_chunk_size
    };
    round_up(target, MIB_2)
}

/// Tunes the mapped window to the file, or reports that the window asked for
/// is beyond what the machine can address.
pub fn checked_chunk_size(file_size: u64, default_chunk_size: usize) -> (size: Option<usize>)
    ensures
        match size {
            Some(s) => spec_chunk_size_representable(file_size, default_chunk_size) && s
                == spec_optimize_chunk_size(file_size, default_chunk_size),
            None => !spec_chunk_size_representable(file_size, default_chunk_size),
        },
{
    let plain = file_size <= GIB;
    if plain && default_chunk_size > usize::MAX - MIB_2 {
        None
    } else {
        Some(optimize_chunk_size(file_size, default_chunk_size))
    }
}

/// Checks that a window of `chunk_size` bytes can be addressed on this
/// machine.
pub fn check_chunk_size_fits(chunk_size: u64, path: &str) -> (out: HashResult<()>)
    ensures
        chunk_size <= usize::MAX ==> out.is_ok(),
        chunk_size > usize::MAX ==> spec_resource_error(out),
{
    if chunk_size > usize::MAX as u64 {
        let mut message = String::from_str("chunk size exceeds the address space for file: ");
        message.append(path);
        Err(HashError::SystemResource(message))
    } else {
        Ok(())
    }
}

/// How far a file has come since its last report.
pub open spec fn spec_progress_advance(processed: u64, last_reported: u64) -> int {
    if processed >= last_reported {
        processed - last_reported
    } else {
        0
    }
}

/// Whether a progress report is due: at the very start, when more than
/// 100 ms have passed since the last report, or when the file has come
/// further since the last report than one percent of its size.
pub open spec fn spec_should_send_progress(
    elapsed_ms: u128,
    processed: u64,
    last_reported: u64,
    total: u64,
) -> bool {
    processed == 0 || elapsed_ms > 100 || (total > 0 && spec_progress_advance(
        processed,
        last_reported,
    ) * 100 > total)
}

/// Decides whether progress is reported now. `elapsed_ms` is the time since
/// the last report and `last_reported` the position it reported. Where the
/// answer is yes the caller restarts its clock and remembers `processed`.
pub fn should_send_progress(elapsed_ms: u128, processed: u64, last_reported: u64, total: u64) -> (due:
    bool)
    ensures
        due == spec_should_send_progress(elapsed_ms, processed, last_reported, total),
{
    if processed == 0 || elapsed_ms > 100 {
        return true;
    }
    if total == 0 {
        return false;
    }
    let advance: u64 = if processed >= last_reported {
        processed - last_reported
    } else {
        0
    };
    let scaled: u128 = advance as u128 * 100;
    scaled > total as u128
}

/// Reports are throttled: between the start and the end of a file, a report
/// that follows another within 100 ms tells of more than one percent of the
/// file read since.
pub proof fn lemma_reports_are_throttled(
    elapsed_ms: u128,
    processed: u64,
    last_reported: u64,
    total: u64,
)
    requires
        spec_should_send_progress(elapsed_ms, processed, last_reported, total),
        processed > 0,
        elapsed_ms <= 100,
    ensures
        total > 0,
        processed > last_reported,
        (processed - last_reported) * 100 > total,
{
}

/// The four digests as hex text: CRC-32 as 8 digits, MD5 as 32, SHA-1 as 40,
/// XXH3 as 32.
pub struct HexDigests {
    pub crc32: Seq<char>,
    pub md5: Seq<char>,
    pub sha1: Seq<char>,
    pub xxh3: Seq<char>,
}

/// The hex digests of `data`.
pub open spec fn spec_hex_digests(data: Seq<u8>) -> HexDigests {
    HexDigests {
        crc32: spec_hex_encode(spec_u32_be_bytes(spec_crc32(data))),
        md5: spec_hex_encode(spec_md5(data)),
        sha1: spec_hex_encode(spec_sha1(data)),
        xxh3: spec_hex_encode(spec_u128_be_bytes(spec_xxh3_128(data))),
    }
}

/// The checksum and the fast digest of any data are written as the cache
/// wants them: 8 and 32 hex digits.
pub proof fn lemma_digest_texts_well_formed(data: Seq<u8>)
    ensures
        spec_is_hex_digest(spec_hex_digests(data).crc32, 8),
        spec_is_hex_digest(spec_hex_digests(data).xxh3, 32),
        spec_xxh3_hex(data) == spec_hex_digests(data).xxh3,
{
    lemma_hex_encode_is_hex(spec_u32_be_bytes(spec_crc32(data)));
    lemma_hex_encode_is_hex(spec_u128_be_bytes(spec_xxh3_128(data)));
}

/// Writes the digests as lower-case hex text, in the order CRC-32, MD5,
/// SHA-1, XXH3. The checksum is written as eight digits, the highest first.
pub fn format_hash_results(crc32: u32, md5: &[u8], sha1: &[u8], xxh3: &[u8]) -> (texts: (
    String,
    String,
    String,
    String,
))
    ensures
        texts.0@ == spec_hex_encode(spec_u32_be_bytes(crc32)),
        texts.1@ == spec_hex_encode(md5@),
        texts.2@ == spec_hex_encode(sha1@),
        texts.3@ == spec_hex_encode(xxh3@),
{
    let checksum = u32_be_bytes(crc32);
    (hex_encode(checksum.as_slice()), hex_encode(md5), hex_encode(sha1), hex_encode(xxh3))
}

} // verus!

verus! {

/// The least number of bytes between two progress reports of a medium file.
pub const MEDIUM_PROGRESS_STEP: u64 = 1_048_576;

/// The least number of bytes between two progress reports of a large file.
pub const LARGE_PROGRESS_STEP: u64 = 16_777_216;

/// The bytes between two progress reports while all digests are computed: a
/// hundredth of a medium file but at least 1 MiB, a fiftieth of a large file
/// but at least 16 MiB, and 0, which stands for no reports, for a tiny file.
pub open spec fn spec_progress_interval(strategy: Strategy, file_size: u64) -> u64 {
    match strategy {
        Strategy::Tiny => 0,
        Strategy::Medium => if file_size / 100 > MEDIUM_PROGRESS_STEP {
            file_size / 100
        } else {
            MEDIUM_PROGRESS_STEP
        },
        Strategy::Large => if file_size / 50 > LARGE_PROGRESS_STEP {
            file_size / 50
        } else {
            LARGE_PROGRESS_STEP
        },
    }
}

/// The bytes between two progress reports.
pub fn progress_interval(strategy: Strategy, file_size: u64) -> (interval: u64)
    ensures
        interval == spec_progress_interval(strategy, file_size),
        interval <= 0x0600_0000_0000_0000,
{
    match strategy {
        Strategy::Tiny => 0,
        Strategy::Medium => {
            let hundredth = file_size / 100;
            if hundredth > MEDIUM_PROGRESS_STEP {
                hundredth
            } else {
                MEDIUM_PROGRESS_STEP
            }
        },
        Strategy::Large => {
            let fiftieth = file_size / 50;
            if fiftieth > LARGE_PROGRESS_STEP {
                fiftieth
            } else {
                LARGE_PROGRESS_STEP
            }
        },
    }
}

/// Where the reporting of a job stands: the bytes to reach for the next
/// report, and the reports made so far.
pub struct ProgressTrace {
    pub next_threshold: int,
    pub updates: Seq<ProgressUpdate>,
}

/// Whether a report is due after a piece took the stream to `processed`
/// bytes: reports are made at all, and the threshold is reached.
pub open spec fn spec_report_due(interval: u64, processed: int, next_threshold: int) -> bool {
    interval > 0 && processed >= next_threshold
}

/// The reporting after a piece took the stream to `processed` bytes: where a
/// report is due, one report is made and the threshold moves on by one
/// interval.
pub open spec fn spec_trace_step(
    trace: ProgressTrace,
    processed: int,
    total: u64,
    interval: u64,
) -> ProgressTrace {
    if spec_report_due(interval, processed, trace.next_threshold) {
        ProgressTrace {
            next_threshold: trace.next_threshold + interval,
            updates: trace.updates.push(ProgressUpdate { processed: processed as u64, total }),
        }
    } else {
        trace
    }
}

/// The end of the `count`-th piece of `length` bytes cut into pieces of
/// `step` bytes.
pub open spec fn spec_piece_end(count: int, step: int, length: int) -> int {
    spec_min(count * step, length)
}

/// The reporting after the first `count` pieces of a stream of `length`
/// bytes read in pieces of `step` bytes.
pub open spec fn spec_trace_after(
    count: nat,
    step: int,
    length: int,
    total: u64,
    interval: u64,
) -> ProgressTrace
    decreases count,
{
    if count == 0 {
        ProgressTrace { next_threshold: interval as int, updates: Seq::empty() }
    } else {
        spec_trace_step(
            spec_trace_after((count - 1) as nat, step, length, total, interval),
            spec_piece_end(count as int, step, length),
            total,
            interval,
        )
    }
}

/// The number of pieces of `step` bytes that `length` bytes are read in.
pub open spec fn spec_piece_count(length: int, step: int) -> nat {
    if step > 0 {
        ((length + step - 1) / step) as nat
    } else {
        0
    }
}

/// The reports made while `length` bytes are hashed in pieces of `step`
/// bytes.
pub open spec fn spec_reports(length: int, step: int, total: u64, interval: u64) -> Seq<
    ProgressUpdate,
> {
    spec_trace_after(spec_piece_count(length, step), step, length, total, interval).updates
}

/// Computes all four digests of a stream that arrives piece by piece, and
/// says after each piece whether progress is to be reported.
pub struct HashJob {
    hasher: FileHasher,
    total: u64,
    interval: u64,
    next_threshold: u64,
}

impl HashJob {
    /// The bytes absorbed so far.
    pub closed spec fn absorbed(&self) -> Seq<u8> {
        self.hasher.absorbed()
    }

    /// Whether the stream went beyond what the digests are defined for.
    pub closed spec fn overlong(&self) -> bool {
        self.hasher.overlong()
    }

    /// The size of the file as the job was told it.
    pub closed spec fn total(&self) -> u64 {
        self.total
    }

    /// The bytes between two reports; 0 where none are made.
    pub closed spec fn interval(&self) -> u64 {
        self.interval
    }

    /// The bytes to reach for the next report.
    pub closed spec fn next_threshold(&self) -> u64 {
        self.next_threshold
    }

    pub closed spec fn wf(&self) -> bool {
        &&& self.hasher.wf()
        &&& self.interval <= 0x0600_0000_0000_0000
        &&& self.next_threshold <= self.hasher.absorbed().len() + self.interval
        &&& self.hasher.absorbed().len() <= MAX_STREAM_BYTES
    }

    /// A job for a file said to hold `file_size` bytes and read by
    /// `strategy`.
    pub fn new(file_size: u64, strategy: Strategy) -> (job: Self)
        ensures
            job.wf(),
            job.absorbed() == Seq::<u8>::empty(),
            !job.overlong(),
            job.total() == file_size,
            job.interval() == spec_progress_interval(strategy, file_size),
            job.next_threshold() == job.interval(),
    {
        let interval = progress_interval(strategy, file_size);
        let hasher = FileHasher::new();
        let job = HashJob { hasher, total: file_size, interval, next_threshold: interval };
        job
    }

    /// Feeds the next piece of the file to the digests. The answer is the
    /// progress to report, if a report is due: the bytes absorbed so far and
    /// the size the job was told.
    pub fn feed(&mut self, piece: &[u8]) -> (report: Option<ProgressUpdate>)
        requires
            old(self).wf(),
        ensures
            final(self).wf(),
            final(self).total() == old(self).total(),
            final(self).interval() == old(self).interval(),
            !old(self).overlong() && old(self).absorbed().len() + piece@.len() <= MAX_STREAM_BYTES
                ==> final(self).absorbed() == old(self).absorbed() + piece@ && !final(self).overlong(),
            old(self).overlong() || old(self).absorbed().len() + piece@.len() > MAX_STREAM_BYTES
                ==> final(self).absorbed() == old(self).absorbed() && final(self).overlong(),
            ({
                let position = final(self).absorbed().len();
                if !final(self).overlong() && spec_report_due(
                    old(self).interval(),
                    position as int,
                    old(self).next_threshold() as int,
                ) {
                    &&& report == Some(
                        ProgressUpdate { processed: position as u64, total: old(self).total() },
                    )
                    &&& final(self).next_threshold() == old(self).next_threshold() + old(self).interval()
                } else {
                    &&& report.is_none()
                    &&& final(self).next_threshold() == old(self).next_threshold()
                }
            }),
    {
        self.hasher.update(piece);
        let processed = self.hasher.fed_bytes();
        if self.hasher.is_overlong() {
            None
        } else if self.interval > 0 && processed >= self.next_threshold {
            self.next_threshold = self.next_threshold + self.interval;
            Some(ProgressUpdate { processed, total: self.total })
        } else {
            None
        }
    }

    /// Ends the stream and gives the digests of everything absorbed as hex
    /// text, in the order CRC-32, MD5, SHA-1, XXH3, of 8, 32, 40 and 32 hex
    /// digits. An overlong stream has no digests.
    pub fn finish(self) -> (out: HashResult<(String, String, String, String)>)
        requires
            self.wf(),
        ensures
            !self.overlong() ==> spec_holds_digests(out, self.absorbed()),
            self.overlong() ==> spec_resource_error(out),
    {
        match self.hasher.finalize() {
            Ok((crc32, md5, sha1, xxh3)) => {
                proof {
                    lemma_hex_encode_is_hex(spec_u32_be_bytes(crc32));
                    lemma_hex_encode_is_hex(md5@);
                    lemma_hex_encode_is_hex(sha1@);
                    lemma_hex_encode_is_hex(xxh3@);
                }
                Ok(format_hash_results(crc32, md5.as_slice(), sha1.as_slice(), xxh3.as_slice()))
            },
            Err(e) => Err(e),
        }
    }
}

} // verus!

verus! {

/// Whether the four texts have the shape that the cache asks of digests: 8
/// hex digits for CRC-32, 32 for MD5, 40 for SHA-1 and 32 for XXH3.
pub open spec fn spec_well_formed_texts(
    crc32: Seq<char>,
    md5: Seq<char>,
    sha1: Seq<char>,
    xxh3: Seq<char>,
) -> bool {
    &&& spec_is_hex_digest(crc32, 8)
    &&& spec_is_hex_digest(md5, 32)
    &&& spec_is_hex_digest(sha1, 40)
    &&& spec_is_hex_digest(xxh3, 32)
}

/// Whether `out` holds the hex digests of `data`, each in the shape that the
/// cache asks of it.
pub open spec fn spec_holds_digests(
    out: HashResult<(String, String, String, String)>,
    data: Seq<u8>,
) -> bool {
    out matches Ok(t) && t.0@ == spec_hex_digests(data).crc32 && t.1@ == spec_hex_digests(
        data,
    ).md5 && t.2@ == spec_hex_digests(data).sha1 && t.3@ == spec_hex_digests(data).xxh3
        && spec_well_formed_texts(t.0@, t.1@, t.2@, t.3@)
}

/// Whether `out` reports that a limit of the machine or of the digests was
/// passed.
pub open spec fn spec_resource_error<T>(out: HashResult<T>) -> bool {
    out matches Err(HashError::SystemResource(_))
}

/// Whether the digests of `length` bytes can be computed in pieces of `step`
/// bytes: the pieces are not empty and the bytes are not beyond what the
/// digests are defined for.
pub open spec fn spec_hashable(length: int, step: int) -> bool {
    step > 0 && length <= MAX_STREAM_BYTES
}

/// The end of a piece is the end of the one before it plus one step, cut at
/// the length of the stream.
proof fn lemma_piece_end_step(count: int, step: int, length: int)
    requires
        step > 0,
        count >= 0,
        length >= 0,
    ensures
        spec_piece_end(count + 1, step, length) == spec_min(
            spec_piece_end(count, step, length) + step,
            length,
        ),
        spec_piece_end(count, step, length) < length ==> spec_piece_end(count, step, length)
            == count * step,
{
    assert((count + 1) * step == count * step + step) by (nonlinear_arith);
}

/// A stream that ends exactly after `count` pieces is read in `count` pieces.
proof fn lemma_piece_count(count: int, step: int, length: int)
    requires
        step > 0,
        count >= 0,
        length >= 0,
        count * step >= length,
        count > 0 ==> (count - 1) * step < length,
        count == 0 ==> length == 0,
    ensures
        spec_piece_count(length, step) == count,
{
    assert((length + step - 1) / step == count) by (nonlinear_arith)
        requires
            step > 0,
            count >= 0,
            length >= 0,
            count * step >= length,
            count > 0 ==> (count - 1) * step < length,
            count == 0 ==> length == 0,
    ;
}

/// Hashes `data` in pieces of `step` bytes through a job for a file said to
/// hold `file_size` bytes, and appends the reports that fall due to
/// `progress`.
fn hash_in_pieces(
    data: &[u8],
    file_size: u64,
    strategy: Strategy,
    step: usize,
    progress: &mut Vec<ProgressUpdate>,
) -> (out: HashResult<(String, String, String, String)>)
    ensures
        spec_hashable(data@.len() as int, step as int) ==> spec_holds_digests(out, data@) && final(progress)@
            == old(progress)@ + spec_reports(
            data@.len() as int,
            step as int,
            file_size,
            spec_progress_interval(strategy, file_size),
        ),
        !spec_hashable(data@.len() as int, step as int) ==> spec_resource_error(out)
            && final(progress)@ == old(progress)@,
{
    let length = data.len();
    if step == 0 {
        return Err(HashError::SystemResource(String::from_str("read size must not be zero")));
    }
    if length as u64 > MAX_STREAM_BYTES {
        return Err(
            HashError::SystemResource(
                String::from_str("input is longer than the digests are defined for"),
            ),
        );
    }
    let ghost interval = spec_progress_interval(strategy, file_size);
    let ghost reported = progress@;
    let mut job = HashJob::new(file_size, strategy);
    let mut offset: usize = 0;
    let ghost mut pieces: int = 0;
    assert(data@.subrange(0, 0) =~= Seq::<u8>::empty());
    assert(progress@ =~= reported + spec_trace_after(
        0,
        step as int,
        length as int,
        file_size,
        interval,
    ).updates);
    while offset < length
        invariant
            step > 0,
            length == data@.len(),
            length <= MAX_STREAM_BYTES,
            offset <= length,
            pieces >= 0,
            offset == spec_piece_end(pieces, step as int, length as int),
            pieces > 0 ==> (pieces - 1) * step < length,
            pieces == 0 ==> offset == 0,
            job.wf(),
            !job.overlong(),
            job.absorbed() == data@.subrange(0, offset as int),
            job.total() == file_size,
            job.interval() == interval,
            interval == spec_progress_interval(strategy, file_size),
            job.next_threshold() == spec_trace_after(
                pieces as nat,
                step as int,
                length as int,
                file_size,
                interval,
            ).next_threshold,
            progress@ == reported + spec_trace_after(
                pieces as nat,
                step as int,
                length as int,
                file_size,
                interval,
            ).updates,
        decreases length - offset,
    {
        let end: usize = if length - offset > step {
            offset + step
        } else {
            length
        };
        proof {
            lemma_piece_end_step(pieces, step as int, length as int);
        }
        let piece = slice_subrange(data, offset, end);
        let ghost before = spec_trace_after(
            pieces as nat,
            step as int,
            length as int,
            file_size,
            interval,
        );
        let ghost threshold = job.next_threshold();
        let ghost earlier = progress@;
        let report = job.feed(piece);
        assert(job.absorbed() =~= data@.subrange(0, end as int));
        assert(job.absorbed().len() == end);
        let ghost due = spec_report_due(interval, end as int, threshold as int);
        match report {
            Some(update) => {
                assert(due);
                progress.push(update);
                assert(progress@ == earlier.push(
                    ProgressUpdate { processed: end as u64, total: file_size },
                ));
            },
            None => {
                assert(!due);
            },
        }
        proof {
            let after = spec_trace_after(
                (pieces + 1) as nat,
                step as int,
                length as int,
                file_size,
                interval,
            );
            assert(spec_piece_end(pieces + 1, step as int, length as int) == end);
            assert(after == spec_trace_step(before, end as int, file_size, interval));
            assert(before.next_threshold == threshold);
            if due {
                assert(after.updates == before.updates.push(
                    ProgressUpdate { processed: end as u64, total: file_size },
                ));
                assert(after.next_threshold == threshold + interval);
                assert(progress@ =~= reported + after.updates);
            } else {
                assert(after == before);
                assert(progress@ =~= reported + after.updates);
            }
            pieces = pieces + 1;
        }
        offset = end;
    }
    proof {
        if pieces > 0 {
            assert(pieces * step >= length) by {
                if pieces * step < length {
                    assert(spec_piece_end(pieces, step as int, length as int) == pieces * step);
                }
            }
        } else {
            assert(pieces * step == 0) by (nonlinear_arith)
                requires
                    pieces == 0,
            ;
        }
        lemma_piece_count(pieces, step as int, length as int);
        assert(data@.subrange(0, length as int) =~= data@);
    }
    job.finish()
}

/// Hashes data held in memory as a tiny file is hashed: in one piece,
/// without reports.
pub fn compute_hash_tiny(data: &[u8]) -> (out: HashResult<(String, String, String, String)>)
    ensures
        data@.len() <= MAX_STREAM_BYTES ==> spec_holds_digests(out, data@),
        data@.len() > MAX_STREAM_BYTES ==> spec_resource_error(out),
{
    let mut job = HashJob::new(data.len() as u64, Strategy::Tiny);
    let report = job.feed(data);
    assert(Seq::<u8>::empty() + data@ =~= data@);
    job.finish()
}

/// Hashes data held in memory as a medium file is hashed: in reads of
/// `buffer_size` bytes, with a report whenever another hundredth of
/// `file_size`, at least 1 MiB, has been read.
pub fn compute_hash_medium(
    data: &[u8],
    file_size: u64,
    progress: &mut Vec<ProgressUpdate>,
    buffer_size: usize,
) -> (out: HashResult<(String, String, String, String)>)
    ensures
        spec_hashable(data@.len() as int, buffer_size as int) ==> spec_holds_digests(out, data@) && final(progress)@
            == old(progress)@ + spec_reports(
            data@.len() as int,
            buffer_size as int,
            file_size,
            spec_progress_interval(Strategy::Medium, file_size),
        ),
        !spec_hashable(data@.len() as int, buffer_size as int) ==> spec_resource_error(out)
            && final(progress)@ == old(progress)@,
{
    hash_in_pieces(data, file_size, Strategy::Medium, buffer_size, progress)
}

/// Hashes data held in memory as a large file is hashed: in windows of
/// `mmap_chunk_size` bytes, one after the other, with a report whenever
/// another fiftieth of `file_size`, at least 16 MiB, has been read.
pub fn compute_hash_large_serial(
    data: &[u8],
    file_size: u64,
    progress: &mut Vec<ProgressUpdate>,
    mmap_chunk_size: usize,
) -> (out: HashResult<(String, String, String, String)>)
    ensures
        spec_hashable(data@.len() as int, mmap_chunk_size as int) ==> spec_holds_digests(out, data@) && final(progress)@
            == old(progress)@ + spec_reports(
            data@.len() as int,
            mmap_chunk_size as int,
            file_size,
            spec_progress_interval(Strategy::Large, file_size),
        ),
        !spec_hashable(data@.len() as int, mmap_chunk_size as int) ==> spec_resource_error(out)
            && final(progress)@ == old(progress)@,
{
    hash_in_pieces(data, file_size, Strategy::Large, mmap_chunk_size, progress)
}

/// Hashes data held in memory as a large file is hashed. The windows are
/// never hashed side by side: none of the digests can merge partial states.
pub fn compute_hash_large(
    data: &[u8],
    file_size: u64,
    progress: &mut Vec<ProgressUpdate>,
    mmap_chunk_size: usize,
) -> (out: HashResult<(String, String, String, String)>)
    ensures
        spec_hashable(data@.len() as int, mmap_chunk_size as int) ==> spec_holds_digests(out, data@) && final(progress)@
            == old(progress)@ + spec_reports(
            data@.len() as int,
            mmap_chunk_size as int,
            file_size,
            spec_progress_interval(Strategy::Large, file_size),
        ),
        !spec_hashable(data@.len() as int, mmap_chunk_size as int) ==> spec_resource_error(out)
            && final(progress)@ == old(progress)@,
{
    compute_hash_large_serial(data, file_size, progress, mmap_chunk_size)
}

} // verus!

verus! {

/// How a file is to be read: the strategy, and the size of each read or
/// window. A tiny file is read whole and has no read size.
#[derive(Debug, Clone, Copy, PartialEq, Eq, Structural)]
pub struct ReadPlan {
    pub strategy: Strategy,
    pub read_size: usize,
}

/// The plan for all digests of a file of `file_size` bytes under the
/// configured buffer and window sizes, or `None` where the size it comes to
/// is zero or cannot be addressed.
pub open spec fn spec_read_plan(file_size: u64, buffer_size: usize, mmap_chunk_size: usize) -> Option<
    ReadPlan,
> {
    match spec_strategy(file_size) {
        Strategy::Tiny => Some(ReadPlan { strategy: Strategy::Tiny, read_size: 0 }),
        Strategy::Medium => if spec_optimize_buffer_size(file_size, buffer_size) > 0 {
            Some(
                ReadPlan {
                    strategy: Strategy::Medium,
                    read_size: spec_optimize_buffer_size(file_size, buffer_size) as usize,
                },
            )
        } else {
            None
        },
        Strategy::Large => if spec_chunk_size_representable(file_size, mmap_chunk_size)
            && spec_optimize_chunk_size(file_size, mmap_chunk_size) > 0 {
            Some(
                ReadPlan {
                    strategy: Strategy::Large,
                    read_size: spec_optimize_chunk_size(file_size, mmap_chunk_size) as usize,
                },
            )
        } else {
            None
        },
    }
}

/// Plans the reading of a file for all digests: the strategy by size, the
/// buffer or window tuned to the file.
pub fn plan_read(file_size: u64, buffer_size: usize, mmap_chunk_size: usize) -> (out: HashResult<
    ReadPlan,
>)
    ensures
        match spec_read_plan(file_size, buffer_size, mmap_chunk_size) {
            Some(plan) => out == Ok::<ReadPlan, HashError>(plan),
            None => spec_resource_error(out),
        },
{
    match select_strategy(file_size) {
        Strategy::Tiny => Ok(ReadPlan { strategy: Strategy::Tiny, read_size: 0 }),
        Strategy::Medium => {
            let size = optimize_buffer_size(file_size, buffer_size);
            if size > 0 {
                Ok(ReadPlan { strategy: Strategy::Medium, read_size: size })
            } else {
                Err(HashError::SystemResource(String::from_str("read size must not be zero")))
            }
        },
        Strategy::Large => {
            match checked_chunk_size(file_size, mmap_chunk_size) {
                Some(size) => {
                    if size > 0 {
                        Ok(ReadPlan { strategy: Strategy::Large, read_size: size })
                    } else {
                        Err(
                            HashError::SystemResource(
                                String::from_str("window size must not be zero"),
                            ),
                        )
                    }
                },
                None => Err(
                    HashError::SystemResource(
                        String::from_str("window size exceeds the address space"),
                    ),
                ),
            }
        },
    }
}

/// The plan for the fast digest of a file: the strategy by size, the
/// configured buffer or window as it is, or `None` where that is zero.
pub open spec fn spec_fast_read_plan(file_size: u64, buffer_size: usize, mmap_chunk_size: usize) -> Option<
    ReadPlan,
> {
    match spec_strategy(file_size) {
        Strategy::Tiny => Some(ReadPlan { strategy: Strategy::Tiny, read_size: 0 }),
        Strategy::Medium => if buffer_size > 0 {
            Some(ReadPlan { strategy: Strategy::Medium, read_size: buffer_size })
        } else {
            None
        },
        Strategy::Large => if mmap_chunk_size > 0 {
            Some(ReadPlan { strategy: Strategy::Large, read_size: mmap_chunk_size })
        } else {
            None
        },
    }
}

/// Plans the reading of a file for the fast digest alone.
pub fn plan_fast_read(file_size: u64, buffer_size: usize, mmap_chunk_size: usize) -> (out:
    HashResult<ReadPlan>)
    ensures
        match spec_fast_read_plan(file_size, buffer_size, mmap_chunk_size) {
            Some(plan) => out == Ok::<ReadPlan, HashError>(plan),
            None => spec_resource_error(out),
        },
{
    let strategy = select_strategy(file_size);
    let size = match strategy {
        Strategy::Tiny => {
            return Ok(ReadPlan { strategy: Strategy::Tiny, read_size: 0 });
        },
        Strategy::Medium => buffer_size,
        Strategy::Large => mmap_chunk_size,
    };
    if size > 0 {
        Ok(ReadPlan { strategy, read_size: size })
    } else {
        Err(HashError::SystemResource(String::from_str("read size must not be zero")))
    }
}

/// The reports made while `length` bytes are hashed under `plan` for a file
/// said to hold `file_size` bytes.
pub open spec fn spec_plan_reports(plan: ReadPlan, length: int, file_size: u64) -> Seq<
    ProgressUpdate,
> {
    match plan.strategy {
        Strategy::Tiny => Seq::empty(),
        _ => spec_reports(
            length,
            plan.read_size as int,
            file_size,
            spec_progress_interval(plan.strategy, file_size),
        ),
    }
}

/// The size by which the strategy is picked: the hint, or the length of the
/// data where there is none.
pub open spec fn spec_effective_size(length: int, file_size_hint: Option<u64>) -> u64 {
    match file_size_hint {
        Some(size) => size,
        None => length as u64,
    }
}

/// Computes the four digests of `data` as a file of that content is hashed.
/// The strategy is picked by `file_size_hint`, or by the length of the data
/// where no hint is given; the digests are those of the data whatever the
/// strategy and the sizes. Reports that fall due are appended to `progress`.
pub fn compute_file_hash(
    data: &[u8],
    progress: &mut Vec<ProgressUpdate>,
    buffer_size: usize,
    mmap_chunk_size: usize,
    file_size_hint: Option<u64>,
) -> (out: HashResult<(String, String, String, String)>)
    ensures
        ({
            let file_size = spec_effective_size(data@.len() as int, file_size_hint);
            match spec_read_plan(file_size, buffer_size, mmap_chunk_size) {
                Some(plan) => if data@.len() <= MAX_STREAM_BYTES {
                    spec_holds_digests(out, data@) && final(progress)@ == old(progress)@
                        + spec_plan_reports(plan, data@.len() as int, file_size)
                } else {
                    spec_resource_error(out) && final(progress)@ == old(progress)@
                },
                None => spec_resource_error(out) && final(progress)@ == old(progress)@,
            }
        }),
{
    let file_size: u64 = match file_size_hint {
        Some(size) => size,
        None => data.len() as u64,
    };
    match plan_read(file_size, buffer_size, mmap_chunk_size) {
        Err(e) => Err(e),
        Ok(plan) => {
            match plan.strategy {
                Strategy::Tiny => {
                    assert(progress@ + Seq::<ProgressUpdate>::empty() =~= progress@);
                    compute_hash_tiny(data)
                },
                Strategy::Medium => compute_hash_medium(data, file_size, progress, plan.read_size),
                Strategy::Large => compute_hash_large(data, file_size, progress, plan.read_size),
            }
        },
    }
}

/// Computes the four digests of `data` and gives them with its length, as
/// they are wanted for a new cache entry.
pub fn compute_all_hashes_cached(
    data: &[u8],
    progress: &mut Vec<ProgressUpdate>,
    buffer_size: usize,
    mmap_chunk_size: usize,
) -> (out: HashResult<(String, String, String, String, u64)>)
    ensures
        ({
            let file_size = data@.len() as u64;
            match spec_read_plan(file_size, buffer_size, mmap_chunk_size) {
                Some(plan) => if data@.len() <= MAX_STREAM_BYTES {
                    &&& out matches Ok(t) && spec_holds_digests(
                        Ok((t.0, t.1, t.2, t.3)),
                        data@,
                    ) && t.4 == file_size
                    &&& final(progress)@ == old(progress)@ + spec_plan_reports(
                        plan,
                        data@.len() as int,
                        file_size,
                    )
                } else {
                    spec_resource_error(out) && final(progress)@ == old(progress)@
                },
                None => spec_resource_error(out) && final(progress)@ == old(progress)@,
            }
        }),
{
    let file_size: u64 = data.len() as u64;
    match compute_file_hash(data, progress, buffer_size, mmap_chunk_size, Some(file_size)) {
        Ok((crc32, md5, sha1, xxhash3)) => Ok((crc32, md5, sha1, xxhash3, file_size)),
        Err(e) => Err(e),
    }
}

/// The fast digest of `data` as hex text: 32 digits, the highest first.
pub open spec fn spec_xxh3_hex(data: Seq<u8>) -> Seq<char> {
    spec_hex_encode(spec_u128_be_bytes(spec_xxh3_128(data)))
}

/// The number of bytes counted for a stream: its length, or the largest
/// count where it is longer than that.
pub open spec fn spec_counted(length: int) -> u64 {
    if length <= u64::MAX {
        length as u64
    } else {
        u64::MAX
    }
}

/// Computes the fast digest of a stream that arrives piece by piece, and says
/// after each piece whether progress is to be reported.
pub struct Xxh3Job {
    state: xxhash_rust::xxh3::Xxh3,
    processed: u64,
    last_reported: u64,
    total: u64,
}

impl Xxh3Job {
    /// The bytes absorbed so far.
    pub closed spec fn absorbed(&self) -> Seq<u8> {
        spec_xxh3_absorbed(self.state)
    }

    /// The size of the file as the job was told it.
    pub closed spec fn total(&self) -> u64 {
        self.total
    }

    /// The position that the last report told of; 0 before the first.
    pub closed spec fn last_reported(&self) -> u64 {
        self.last_reported
    }

    pub closed spec fn wf(&self) -> bool {
        self.processed == spec_counted(self.absorbed().len() as int)
    }

    /// A job for a file said to hold `file_size` bytes.
    pub fn new(file_size: u64) -> (job: Self)
        ensures
            job.wf(),
            job.absorbed() == Seq::<u8>::empty(),
            job.total() == file_size,
            job.last_reported() == 0,
    {
        Xxh3Job { state: xxh3_new(), processed: 0, last_reported: 0, total: file_size }
    }

    /// Feeds the next piece of the file to the digest. `elapsed_ms` is the
    /// time since the last report. The answer is the progress to report, if a
    /// report is due; the job then remembers the position reported and the
    /// caller restarts its clock.
    pub fn feed(&mut self, piece: &[u8], elapsed_ms: u128) -> (report: Option<ProgressUpdate>)
        requires
            old(self).wf(),
        ensures
            final(self).wf(),
            final(self).total() == old(self).total(),
            final(self).absorbed() == old(self).absorbed() + piece@,
            ({
                let position = spec_counted(final(self).absorbed().len() as int);
                if spec_should_send_progress(
                    elapsed_ms,
                    position,
                    old(self).last_reported(),
                    old(self).total(),
                ) {
                    &&& report == Some(
                        ProgressUpdate { processed: position, total: old(self).total() },
                    )
                    &&& final(self).last_reported() == position
                } else {
                    &&& report.is_none()
                    &&& final(self).last_reported() == old(self).last_reported()
                }
            }),
    {
        xxh3_update(&mut self.state, piece);
        self.processed = self.processed.saturating_add(piece.len() as u64);
        if should_send_progress(elapsed_ms, self.processed, self.last_reported, self.total) {
            self.last_reported = self.processed;
            Some(ProgressUpdate { processed: self.processed, total: self.total })
        } else {
            None
        }
    }

    /// The fast digest of everything absorbed, as hex text.
    pub fn finish(&self) -> (text: String)
        ensures
            text@ == spec_xxh3_hex(self.absorbed()),
    {
        let bytes = u128_be_bytes(xxh3_digest128(&self.state));
        hex_encode(bytes.as_slice())
    }
}

/// Computes the fast digest of `data` in pieces of `step` bytes.
fn xxh3_in_pieces(data: &[u8], step: usize) -> (out: HashResult<String>)
    ensures
        step > 0 ==> (out matches Ok(text) && text@ == spec_xxh3_hex(data@)),
        step == 0 ==> spec_resource_error(out),
{
    if step == 0 {
        return Err(HashError::SystemResource(String::from_str("read size must not be zero")));
    }
    let length = data.len();
    let mut job = Xxh3Job::new(length as u64);
    let mut offset: usize = 0;
    assert(data@.subrange(0, 0) =~= Seq::<u8>::empty());
    while offset < length
        invariant
            step > 0,
            length == data@.len(),
            offset <= length,
            job.wf(),
            job.absorbed() == data@.subrange(0, offset as int),
        decreases length - offset,
    {
        let end: usize = if length - offset > step {
            offset + step
        } else {
            length
        };
        let piece = slice_subrange(data, offset, end);
        let report = job.feed(piece, 0);
        assert(job.absorbed() =~= data@.subrange(0, end as int));
        offset = end;
    }
    assert(data@.subrange(0, length as int) =~= data@);
    Ok(job.finish())
}

/// Computes the fast digest of data held in memory in one piece.
pub fn compute_xxhash3_tiny(data: &[u8]) -> (out: HashResult<String>)
    ensures
        out matches Ok(text) && text@ == spec_xxh3_hex(data@),
{
    let mut job = Xxh3Job::new(data.len() as u64);
    let report = job.feed(data, 0);
    assert(Seq::<u8>::empty() + data@ =~= data@);
    Ok(job.finish())
}

/// Computes the fast digest of data held in memory in reads of `buffer_size`
/// bytes.
pub fn compute_xxhash3_medium(data: &[u8], buffer_size: usize) -> (out: HashResult<String>)
    ensures
        buffer_size > 0 ==> (out matches Ok(text) && text@ == spec_xxh3_hex(data@)),
        buffer_size == 0 ==> spec_resource_error(out),
{
    xxh3_in_pieces(data, buffer_size)
}

/// Computes the fast digest of data held in memory in windows of
/// `mmap_chunk_size` bytes, one after the other.
pub fn compute_xxhash3_large_serial(data: &[u8], mmap_chunk_size: usize) -> (out: HashResult<
    String,
>)
    ensures
        mmap_chunk_size > 0 ==> (out matches Ok(text) && text@ == spec_xxh3_hex(data@)),
        mmap_chunk_size == 0 ==> spec_resource_error(out),
{
    xxh3_in_pieces(data, mmap_chunk_size)
}

/// Computes the fast digest of data held in memory in windows. The windows
/// are never hashed side by side: the digest cannot merge partial states.
pub fn compute_xxhash3_large(data: &[u8], mmap_chunk_size: usize) -> (out: HashResult<String>)
    ensures
        mmap_chunk_size > 0 ==> (out matches Ok(text) && text@ == spec_xxh3_hex(data@)),
        mmap_chunk_size == 0 ==> spec_resource_error(out),
{
    compute_xxhash3_large_serial(data, mmap_chunk_size)
}

/// Computes the fast digest of `data` alone, as it is wanted to check a cache
/// entry, and gives it with the length of the data. The strategy is picked
/// by the length; the digest is that of the data whatever the strategy and
/// the sizes.
pub fn compute_xxhash3_only(data: &[u8], buffer_size: usize, mmap_chunk_size: usize) -> (out:
    HashResult<(String, u64)>)
    ensures
        match spec_fast_read_plan(data@.len() as u64, buffer_size, mmap_chunk_size) {
            Some(_) => out matches Ok(t) && t.0@ == spec_xxh3_hex(data@) && t.1 == data@.len(),
            None => spec_resource_error(out),
        },
{
    let file_size: u64 = data.len() as u64;
    let text = match plan_fast_read(file_size, buffer_size, mmap_chunk_size) {
        Err(e) => {
            return Err(e);
        },
        Ok(plan) => match plan.strategy {
            Strategy::Tiny => compute_xxhash3_tiny(data),
            Strategy::Medium => compute_xxhash3_medium(data, plan.read_size),
            Strategy::Large => compute_xxhash3_large(data, plan.read_size),
        },
    };
    match text {
        Ok(xxhash3) => Ok((xxhash3, file_size)),
        Err(e) => Err(e),
    }
}

/// The bytes of pieces put one after the other.
pub open spec fn spec_joined(pieces: Seq<Seq<u8>>) -> Seq<u8>
    decreases pieces.len(),
{
    if pieces.len() == 0 {
        Seq::empty()
    } else {
        spec_joined(pieces.drop_last()) + pieces.last()
    }
}

/// What a hasher has absorbed after it was fed `pieces` one after the other,
/// having absorbed `absorbed` before.
pub open spec fn spec_fed(absorbed: Seq<u8>, pieces: Seq<Seq<u8>>) -> Seq<u8>
    decreases pieces.len(),
{
    if pieces.len() == 0 {
        absorbed
    } else {
        spec_fed(absorbed, pieces.drop_last()) + pieces.last()
    }
}

/// The digests do not depend on how a file is cut into pieces: two ways of
/// cutting the same bytes, whatever the strategy and the sizes that led to
/// them, leave a fresh hasher with the same bytes absorbed, and so with the
/// same four digests and the same hex text.
pub proof fn lemma_digests_independent_of_pieces(first: Seq<Seq<u8>>, second: Seq<Seq<u8>>)
    requires
        spec_joined(first) == spec_joined(second),
    ensures
        spec_fed(Seq::empty(), first) == spec_fed(Seq::empty(), second),
        spec_fed(Seq::empty(), first) == spec_joined(first),
        spec_hex_digests(spec_fed(Seq::empty(), first)) == spec_hex_digests(
            spec_fed(Seq::empty(), second),
        ),
        spec_xxh3_hex(spec_fed(Seq::empty(), first)) == spec_xxh3_hex(
            spec_fed(Seq::empty(), second),
        ),
{
    lemma_fed_is_joined(first);
    lemma_fed_is_joined(second);
}

/// Feeding pieces to a fresh hasher leaves it with the pieces joined.
pub proof fn lemma_fed_is_joined(pieces: Seq<Seq<u8>>)
    ensures
        spec_fed(Seq::empty(), pieces) == spec_joined(pieces),
    decreases pieces.len(),
{
    if pieces.len() > 0 {
        lemma_fed_is_joined(pieces.drop_last());
    }
}

} // verus!
