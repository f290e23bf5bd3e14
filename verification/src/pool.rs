//! The cache as its callers see it: one value that holds the configuration
//! and the path normalizer and answers every question of the cache that
//! needs no access to the store.
//!
//! The embedding program owns the connections. For each operation it asks
//! here what to execute, executes it, and hands the outcome back.

use vstd::prelude::*;
use vstd::string::StringExecFns;
use crate::cache::{
    CacheConfig, CacheEntry, IntegrityVerdict, PathNormalizer, spec_default_config,
    spec_integrity_verdict,
};
use crate::numbers::{
    format_bool, format_u64, lemma_parse_bool_text, lemma_parse_decimal, parse_bool, parse_u32,
    parse_u64, parse_usize, spec_bool_text, spec_decimal, spec_parse_bool, spec_parse_unsigned,
};
use crate::error::{
    CacheErrorKind, CacheOperation, HashError, HashResult, StoreFailure, StoreFailureClass,
};
use crate::lookup::{ResolvedPath, collect_lookup, spec_lookup};
use crate::pathmap::PathMap;
use crate::store::{
    cleanup_cutoff, rows_to_save, should_vacuum, spec_cleanup_cutoff, spec_entry_views,
    spec_rows_to_save, spec_should_vacuum,
};

verus! {

/// The cache: its configuration and the normalizer of its keys.
pub struct HashCachePool {
    config: CacheConfig,
    pub path_normalizer: PathNormalizer,
}

/// Which of the two pools of connections an operation draws from.
#[derive(Debug, Clone, Copy, PartialEq, Eq, Structural)]
pub enum PoolKind {
    Read,
    Write,
}

impl HashCachePool {
    /// The configuration the cache was made with.
    pub closed spec fn config(&self) -> CacheConfig {
        self.config
    }

    /// The normalizer of the cache keys.
    pub closed spec fn normalizer(&self) -> PathNormalizer {
        self.path_normalizer
    }

    pub closed spec fn wf(&self) -> bool {
        self.path_normalizer.wf()
    }

    /// A cache with the given configuration whose normalizer remembers
    /// nothing yet. `fold_case` says whether the file system ignores case.
    pub fn new(config: CacheConfig, fold_case: bool) -> (pool: Self)
        ensures
            pool.wf(),
            pool.config() == config,
            pool.normalizer().wf(),
            pool.normalizer().memo() == Map::<Seq<char>, String>::empty(),
            pool.normalizer().folds_case() == fold_case,
    {
        HashCachePool { config, path_normalizer: PathNormalizer::with_case_folding(fold_case) }
    }

    /// The configured size of the read buffer.
    pub fn get_buffer_size(&self) -> (size: usize)
        ensures
            size == self.config().buffer_size,
    {
        self.config.buffer_size
    }

    /// The configured size of the mapped window.
    pub fn get_mmap_chunk_size(&self) -> (size: usize)
        ensures
            size == self.config().mmap_chunk_size,
    {
        self.config.mmap_chunk_size
    }

    /// The configured retention in days.
    pub fn get_retention_days(&self) -> (days: u32)
        ensures
            days == self.config().retention_days,
    {
        self.config.retention_days
    }

    /// Builds the result of a batched lookup from the rows that the store
    /// returned for the cache keys of `resolved`. The result has a key for
    /// every path as the caller spelled it and for every cache key; each maps
    /// to the row stored under the cache key, or to `None`.
    pub fn get_by_paths_batch(&self, resolved: &Vec<ResolvedPath>, rows: &Vec<CacheEntry>) -> (result:
        PathMap<Option<CacheEntry>>)
        ensures
            result.wf(),
            result@ == spec_lookup(resolved@, rows@),
    {
        collect_lookup(resolved, rows)
    }

    /// Selects the rows to write for a batch of entries, in one transaction.
    /// `keys` holds the cache key of each entry, at the same index. An entry
    /// that breaks a constraint of the store is skipped and does not stop the
    /// batch; the number of rows returned is the number saved.
    pub fn save_entries_batch(&self, entries: &Vec<CacheEntry>, keys: &Vec<String>) -> (rows: Vec<
        CacheEntry,
    >)
        requires
            entries.len() == keys.len(),
        ensures
            spec_entry_views(rows@) == spec_rows_to_save(entries@, keys@),
            rows.len() <= entries.len(),
            forall|j: int| 0 <= j < rows.len() ==> (#[trigger] rows[j])@.storable(),
    {
        rows_to_save(entries, keys)
    }

    /// Plans an expiry sweep at the time `now_secs`, in seconds since the
    /// epoch: the time before which rows are deleted, or `None` where the
    /// retention is 0 days and nothing is ever deleted.
    pub fn cleanup_expired(&self, now_secs: u64) -> (cutoff: Option<u64>)
        ensures
            cutoff == spec_cleanup_cutoff(self.config().retention_days, now_secs),
    {
        cleanup_cutoff(self.config.retention_days, now_secs)
    }

    /// Decides, after a sweep that deleted `deleted` rows, whether space is
    /// reclaimed in the background: only after a sweep that deleted
    /// something, and only where unused pages are more than 30% of the file.
    pub fn vacuum_after_cleanup(deleted: usize, page_count: i64, free_pages: i64) -> (due: bool)
        ensures
            due == (deleted > 0 && spec_should_vacuum(page_count, free_pages)),
    {
        deleted > 0 && should_vacuum(page_count, free_pages)
    }

    /// The cheap check of an entry against a file: its size and modification
    /// time are the cached ones.
    pub fn is_valid_with_metadata(entry: &CacheEntry, file_size: u64, modified_time: u64) -> (valid:
        bool)
        ensures
            valid == entry@.matches_metadata(file_size, modified_time),
    {
        entry.file_size == file_size && entry.modified_time == modified_time
    }

    /// The authoritative check of an entry against a file: size,
    /// modification time and the freshly computed fast digest are all the
    /// cached ones. What differed is told by `CacheEntry::check_integrity`.
    pub fn validate_cache_integrity(
        entry: &CacheEntry,
        computed_xxhash3: &str,
        file_size: u64,
        modified_time: u64,
    ) -> (valid: bool)
        ensures
            valid == (entry.file_size == file_size && entry.modified_time == modified_time
                && entry.xxhash3@ == computed_xxhash3@),
            valid == (spec_integrity_verdict(entry@, computed_xxhash3@, file_size, modified_time)
                == IntegrityVerdict::Valid),
    {
        match entry.check_integrity(computed_xxhash3, file_size, modified_time) {
            IntegrityVerdict::Valid => true,
            _ => false,
        }
    }

    /// Checks the shape of the cached digests: each has its exact length and
    /// holds hex digits only. The check itself cannot fail.
    pub fn verify_cached_hashes(&self, entry: &CacheEntry) -> (out: HashResult<bool>)
        ensures
            out == Ok::<bool, HashError>(entry@.digests_well_formed()),
    {
        Ok(entry.digests_well_formed())
    }

    /// The error for a pool that gave no connection in time. `detail` is what
    /// the pool said.
    pub fn pool_exhausted(kind: PoolKind, detail: &str) -> (error: HashError)
        ensures
            error matches HashError::Cache { operation, kind: k, context } && operation
                == CacheOperation::Connection && k is PoolExhausted && context@ == (match kind {
                PoolKind::Read => "read pool timeout: "@,
                PoolKind::Write => "write pool timeout: "@,
            }) + detail@,
    {
        let mut context = match kind {
            PoolKind::Read => String::from_str("read pool timeout: "),
            PoolKind::Write => String::from_str("write pool timeout: "),
        };
        context.append(detail);
        HashError::Cache {
            operation: CacheOperation::Connection,
            kind: CacheErrorKind::PoolExhausted,
            context,
        }
    }

    /// The error for a pool that could not be created. `detail` is what the
    /// pool said.
    pub fn pool_creation_failed(kind: PoolKind, detail: &str) -> (error: HashError)
        ensures
            error matches HashError::Cache { operation, kind: k, context } && operation
                == CacheOperation::Connection && (k matches CacheErrorKind::ConnectionFailed(m)
                && m@ == detail@) && context@ == (match kind {
                PoolKind::Read => "failed to create read pool"@,
                PoolKind::Write => "failed to create write pool"@,
            }),
    {
        HashError::Cache {
            operation: CacheOperation::Connection,
            kind: CacheErrorKind::ConnectionFailed(String::from_str(detail)),
            context: match kind {
                PoolKind::Read => String::from_str("failed to create read pool"),
                PoolKind::Write => String::from_str("failed to create write pool"),
            },
        }
    }

    /// The error for a path that is not valid text and so cannot be a key.
    /// `shown` is the path as far as it can be shown.
    pub fn invalid_path(shown: &str) -> (error: HashError)
        ensures
            error matches HashError::Cache { operation, kind, context } && operation
                == CacheOperation::PathNormalization && (kind matches CacheErrorKind::InvalidPath(
                m,
            ) && m@ == "path contains invalid UTF-8"@) && context@ == "path: "@ + shown@,
    {
        let mut context = String::from_str("path: ");
        context.append(shown);
        HashError::Cache {
            operation: CacheOperation::PathNormalization,
            kind: CacheErrorKind::InvalidPath(String::from_str("path contains invalid UTF-8")),
            context,
        }
    }

    /// The error for a normalizer whose lock was poisoned by a failed
    /// thread.
    pub fn normalizer_poisoned(detail: &str) -> (error: HashError)
        ensures
            error matches HashError::Cache { operation, kind, context } && operation
                == CacheOperation::PathNormalization && kind is PoolExhausted && context@
                == "lock poisoned: "@ + detail@,
    {
        let mut context = String::from_str("lock poisoned: ");
        context.append(detail);
        HashError::Cache {
            operation: CacheOperation::PathNormalization,
            kind: CacheErrorKind::PoolExhausted,
            context,
        }
    }

    /// Turns the outcome of reading the setting `key` into its value: the
    /// text read, `None` where the store holds no such setting, and an error
    /// for any other failure.
    pub fn get_setting(key: &str, outcome: Result<String, StoreFailure>) -> (out: HashResult<
        Option<String>,
    >)
        ensures
            match outcome {
                Ok(value) => out == Ok::<Option<String>, HashError>(Some(value)),
                Err(failure) => if failure.class == StoreFailureClass::NoRows {
                    out == Ok::<Option<String>, HashError>(None)
                } else {
                    out matches Err(HashError::Cache { operation, kind, context }) && operation
                        == CacheOperation::Connection && (kind matches CacheErrorKind::QueryFailed(
                        m,
                    ) && m == failure.display) && context@ == "failed to get setting: "@ + key@
                },
            },
    {
        match outcome {
            Ok(value) => Ok(Some(value)),
            Err(failure) => {
                match failure.class {
                    StoreFailureClass::NoRows => Ok(None),
                    _ => {
                        let mut context = String::from_str("failed to get setting: ");
                        context.append(key);
                        Err(
                            HashError::Cache {
                                operation: CacheOperation::Connection,
                                kind: CacheErrorKind::QueryFailed(failure.display),
                                context,
                            },
                        )
                    },
                }
            },
        }
    }
}

} // verus!

verus! {

/// The settings of a configuration as they were read from the store: for each
/// field the text stored for it, or `None` where nothing is stored or the
/// store could not be read.
pub struct StoredSettings {
    pub min_file_size: Option<String>,
    pub retention_days: Option<String>,
    pub buffer_size: Option<String>,
    pub mmap_chunk_size: Option<String>,
    pub auto_compute_enabled: Option<String>,
    pub uppercase_display: Option<String>,
}

pub const MIN_FILE_SIZE_KEY: &'static str = "min_file_size";

pub const RETENTION_DAYS_KEY: &'static str = "retention_days";

pub const BUFFER_SIZE_KEY: &'static str = "buffer_size";

pub const MMAP_CHUNK_SIZE_KEY: &'static str = "mmap_chunk_size";

pub const AUTO_COMPUTE_KEY: &'static str = "auto_compute_enabled";

pub const UPPERCASE_DISPLAY_KEY: &'static str = "uppercase_display";

/// The number stored for a field, or `default` where nothing is stored or
/// what is stored spells no number of at most `max`.
pub open spec fn spec_stored_number(stored: Option<String>, max: nat, default: nat) -> nat {
    match stored {
        Some(text) => match spec_parse_unsigned(text@, max) {
            Some(n) => n,
            None => default,
        },
        None => default,
    }
}

/// The truth value stored for a field, or `default` where nothing is stored
/// or what is stored spells none.
pub open spec fn spec_stored_bool(stored: Option<String>, default: bool) -> bool {
    match stored {
        Some(text) => match spec_parse_bool(text@) {
            Some(b) => b,
            None => default,
        },
        None => default,
    }
}

/// The configuration that stored settings amount to: each field from its
/// setting, or from the default configuration where the setting is absent or
/// unreadable.
pub open spec fn spec_load_config(stored: StoredSettings) -> CacheConfig {
    let default = spec_default_config();
    CacheConfig {
        min_file_size: spec_stored_number(
            stored.min_file_size,
            u64::MAX as nat,
            default.min_file_size as nat,
        ) as u64,
        retention_days: spec_stored_number(
            stored.retention_days,
            u32::MAX as nat,
            default.retention_days as nat,
        ) as u32,
        buffer_size: spec_stored_number(
            stored.buffer_size,
            usize::MAX as nat,
            default.buffer_size as nat,
        ) as usize,
        mmap_chunk_size: spec_stored_number(
            stored.mmap_chunk_size,
            usize::MAX as nat,
            default.mmap_chunk_size as nat,
        ) as usize,
        auto_compute_enabled: spec_stored_bool(
            stored.auto_compute_enabled,
            default.auto_compute_enabled,
        ),
        uppercase_display: spec_stored_bool(stored.uppercase_display, default.uppercase_display),
    }
}

/// Whether `stored` holds exactly what saving `config` stores.
pub open spec fn spec_stores_config(stored: StoredSettings, config: CacheConfig) -> bool {
    &&& stored.min_file_size matches Some(t) && t@ == spec_decimal(config.min_file_size as nat)
    &&& stored.retention_days matches Some(t) && t@ == spec_decimal(config.retention_days as nat)
    &&& stored.buffer_size matches Some(t) && t@ == spec_decimal(config.buffer_size as nat)
    &&& stored.mmap_chunk_size matches Some(t) && t@ == spec_decimal(
        config.mmap_chunk_size as nat,
    )
    &&& stored.auto_compute_enabled matches Some(t) && t@ == spec_bool_text(
        config.auto_compute_enabled,
    )
    &&& stored.uppercase_display matches Some(t) && t@ == spec_bool_text(
        config.uppercase_display,
    )
}

fn setting(key: &'static str, value: String) -> (pair: (String, String))
    ensures
        pair.0@ == key@,
        pair.1 == value,
{
    (String::from_str(key), value)
}

impl HashCachePool {
    /// The configuration the cache was made with.
    pub fn get_config(&self) -> (config: CacheConfig)
        ensures
            config == self.config(),
    {
        self.config
    }

    /// The settings that persist `config`: six pairs of key and value, the
    /// numbers in base ten, the switches as `true` or `false`.
    pub fn save_cache_config(config: &CacheConfig) -> (settings: Vec<(String, String)>)
        ensures
            settings@.len() == 6,
            settings@[0].0@ == MIN_FILE_SIZE_KEY@ && settings@[0].1@ == spec_decimal(
                config.min_file_size as nat,
            ),
            settings@[1].0@ == RETENTION_DAYS_KEY@ && settings@[1].1@ == spec_decimal(
                config.retention_days as nat,
            ),
            settings@[2].0@ == BUFFER_SIZE_KEY@ && settings@[2].1@ == spec_decimal(
                config.buffer_size as nat,
            ),
            settings@[3].0@ == MMAP_CHUNK_SIZE_KEY@ && settings@[3].1@ == spec_decimal(
                config.mmap_chunk_size as nat,
            ),
            settings@[4].0@ == AUTO_COMPUTE_KEY@ && settings@[4].1@ == spec_bool_text(
                config.auto_compute_enabled,
            ),
            settings@[5].0@ == UPPERCASE_DISPLAY_KEY@ && settings@[5].1@ == spec_bool_text(
                config.uppercase_display,
            ),
    {
        let mut settings: Vec<(String, String)> = Vec::new();
        settings.push(setting(MIN_FILE_SIZE_KEY, format_u64(config.min_file_size)));
        settings.push(setting(RETENTION_DAYS_KEY, format_u64(config.retention_days as u64)));
        settings.push(setting(BUFFER_SIZE_KEY, format_u64(config.buffer_size as u64)));
        settings.push(setting(MMAP_CHUNK_SIZE_KEY, format_u64(config.mmap_chunk_size as u64)));
        settings.push(setting(AUTO_COMPUTE_KEY, format_bool(config.auto_compute_enabled)));
        settings.push(setting(UPPERCASE_DISPLAY_KEY, format_bool(config.uppercase_display)));
        settings
    }

    /// The configuration that stored settings amount to. A field whose
    /// setting is absent or unreadable takes its default; loading never
    /// fails.
    pub fn load_cache_config(stored: &StoredSettings) -> (out: HashResult<CacheConfig>)
        ensures
            out == Ok::<CacheConfig, HashError>(spec_load_config(*stored)),
    {
        let default = CacheConfig::default();
        let min_file_size = match &stored.min_file_size {
            Some(text) => match parse_u64(text.as_str()) {
                Some(n) => n,
                None => default.min_file_size,
            },
            None => default.min_file_size,
        };
        let retention_days = match &stored.retention_days {
            Some(text) => match parse_u32(text.as_str()) {
                Some(n) => n,
                None => default.retention_days,
            },
            None => default.retention_days,
        };
        let buffer_size = match &stored.buffer_size {
            Some(text) => match parse_usize(text.as_str()) {
                Some(n) => n,
                None => default.buffer_size,
            },
            None => default.buffer_size,
        };
        let mmap_chunk_size = match &stored.mmap_chunk_size {
            Some(text) => match parse_usize(text.as_str()) {
                Some(n) => n,
                None => default.mmap_chunk_size,
            },
            None => default.mmap_chunk_size,
        };
        let auto_compute_enabled = match &stored.auto_compute_enabled {
            Some(text) => match parse_bool(text.as_str()) {
                Some(b) => b,
                None => default.auto_compute_enabled,
            },
            None => default.auto_compute_enabled,
        };
        let uppercase_display = match &stored.uppercase_display {
            Some(text) => match parse_bool(text.as_str()) {
                Some(b) => b,
                None => default.uppercase_display,
            },
            None => default.uppercase_display,
        };
        Ok(
            CacheConfig {
                min_file_size,
                retention_days,
                buffer_size,
                mmap_chunk_size,
                auto_compute_enabled,
                uppercase_display,
            },
        )
    }
}

/// A configuration that was saved is loaded back unchanged.
pub proof fn lemma_config_round_trip(stored: StoredSettings, config: CacheConfig)
    requires
        spec_stores_config(stored, config),
    ensures
        spec_load_config(stored) == config,
{
    lemma_parse_decimal(config.min_file_size as nat, u64::MAX as nat);
    lemma_parse_decimal(config.retention_days as nat, u32::MAX as nat);
    lemma_parse_decimal(config.buffer_size as nat, usize::MAX as nat);
    lemma_parse_decimal(config.mmap_chunk_size as nat, usize::MAX as nat);
    lemma_parse_bool_text(config.auto_compute_enabled);
    lemma_parse_bool_text(config.uppercase_display);
}

/// With nothing stored, the default configuration is loaded.
pub proof fn lemma_nothing_stored_loads_default()
    ensures
        spec_load_config(
            StoredSettings {
                min_file_size: None,
                retention_days: None,
                buffer_size: None,
                mmap_chunk_size: None,
                auto_compute_enabled: None,
                uppercase_display: None,
            },
        ) == spec_default_config(),
{
}

} // verus!

verus! {

/// Whether `keys` holds the key of every outcome, in order, all outcomes
/// being successes.
pub open spec fn spec_all_keys(outcomes: Seq<HashResult<String>>, keys: Seq<String>) -> bool {
    &&& keys.len() == outcomes.len()
    &&& forall|i: int|
        0 <= i < outcomes.len() ==> (#[trigger] outcomes[i]) == Ok::<String, HashError>(keys[i])
}

/// Whether `error` is the error of the first outcome that failed.
pub open spec fn spec_first_failure(outcomes: Seq<HashResult<String>>, error: HashError) -> bool {
    exists|i: int|
        0 <= i < outcomes.len() && (#[trigger] outcomes[i]) == Err::<String, HashError>(error)
            && forall|j: int| 0 <= j < i ==> (#[trigger] outcomes[j]).is_ok()
}

/// Gathers the cache keys of a batch. `outcomes` holds, for each of `paths`
/// at the same index, what normalizing it gave. A batch is refused as a
/// whole: where every path could be normalized the keys are returned in the
/// order of the paths, and otherwise the error of the first path that could
/// not, so that nothing is looked up or written for any of them.
pub fn keys_for_batch(paths: &Vec<String>, outcomes: Vec<HashResult<String>>) -> (out: HashResult<
    Vec<String>,
>)
    requires
        paths.len() == outcomes.len(),
    ensures
        match out {
            Ok(keys) => spec_all_keys(outcomes@, keys@),
            Err(error) => spec_first_failure(outcomes@, error),
        },
{
    let ghost all = outcomes@;
    let count = outcomes.len();
    let mut rest = outcomes;
    let mut failure: Option<HashError> = None;
    let mut reversed: Vec<String> = Vec::new();
    while rest.len() > 0
        invariant
            count == all.len(),
            rest.len() <= count,
            rest@ == all.take(rest.len() as int),
            match failure {
                Some(error) => exists|i: int|
                    rest.len() <= i < count && (#[trigger] all[i]) == Err::<String, HashError>(
                        error,
                    ) && forall|j: int| rest.len() <= j < i ==> (#[trigger] all[j]).is_ok(),
                None => reversed.len() == count - rest.len() && forall|k: int|
                    0 <= k < reversed.len() ==> (#[trigger] all[count - 1 - k]) == Ok::<
                        String,
                        HashError,
                    >(reversed[k]),
            },
        decreases rest.len(),
    {
        let ghost at = rest.len() - 1;
        let ghost before = failure;
        let item = rest.pop();
        assert(rest@ =~= all.take(at));
        match item {
            Some(Ok(key)) => {
                assert(all[at] == Ok::<String, HashError>(key));
                if failure.is_none() {
                    reversed.push(key);
                } else {
                    proof {
                        let error = failure.unwrap();
                        let i = choose|i: int|
                            at + 1 <= i < count && (#[trigger] all[i]) == Err::<
                                String,
                                HashError,
                            >(error) && forall|j: int|
                                at + 1 <= j < i ==> (#[trigger] all[j]).is_ok();
                        assert(forall|j: int| at <= j < i ==> (#[trigger] all[j]).is_ok());
                    }
                }
            },
            Some(Err(error)) => {
                assert(all[at] == Err::<String, HashError>(error));
                failure = Some(error);
            },
            None => {},
        }
    }
    match failure {
        Some(error) => Err(error),
        None => {
            let ghost backwards = reversed@;
            let mut keys: Vec<String> = Vec::new();
            while reversed.len() > 0
                invariant
                    backwards.len() == count,
                    reversed.len() <= count,
                    reversed@ == backwards.take(reversed.len() as int),
                    keys.len() == count - reversed.len(),
                    forall|k: int|
                        0 <= k < keys.len() ==> (#[trigger] keys[k]) == backwards[count - 1 - k],
                decreases reversed.len(),
            {
                let ghost at = reversed.len() - 1;
                let key = reversed.pop();
                assert(reversed@ =~= backwards.take(at));
                match key {
                    Some(k) => {
                        keys.push(k);
                    },
                    None => {},
                }
            }
            assert(spec_all_keys(all, keys@)) by {
                assert forall|i: int| 0 <= i < all.len() implies (#[trigger] all[i]) == Ok::<
                    String,
                    HashError,
                >(keys@[i]) by {
                    assert(all[count - 1 - (count - 1 - i)] == Ok::<String, HashError>(
                        backwards[count - 1 - i],
                    ));
                }
            }
            Ok(keys)
        },
    }
}

/// A batch in which a path fails to resolve yields no key at all, and a batch
/// in which every path resolves never fails.
pub proof fn lemma_batch_is_all_or_nothing(
    outcomes: Seq<HashResult<String>>,
    keys: Seq<String>,
    error: HashError,
)
    ensures
        spec_all_keys(outcomes, keys) ==> !spec_first_failure(outcomes, error),
        spec_all_keys(outcomes, keys) ==> forall|i: int|
            0 <= i < outcomes.len() ==> (#[trigger] outcomes[i]).is_ok(),
{
}

} // verus!
