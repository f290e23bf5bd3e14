//! The durable store as the library sees it: the statements that create and
//! maintain it, the rows that may be written to it, and a mathematical model
//! of its table against which the cache operations are stated.
//!
//! The store itself is driven by the embedding program. It executes the
//! statements given here and hands rows back as plain values.

use vstd::prelude::*;
use crate::cache::{CacheEntry, CacheEntryView, CURRENT_CACHE_VERSION};
use crate::lookup::{ResolvedPath, lemma_row_for, spec_lookup, spec_row_for};
use crate::numbers::{parse_u32, spec_parse_unsigned};
use crate::pathmap::lemma_position;

verus! {

/// Seconds in a day.
pub const SECONDS_PER_DAY: u64 = 86_400;

/// Creates the table of cache rows. Its constraints are those of
/// `CacheEntryView::storable`.
pub const CREATE_HASH_CACHE_SQL: &'static str =
    "CREATE TABLE IF NOT EXISTS hash_cache (
                path TEXT NOT NULL PRIMARY KEY,
                file_size INTEGER NOT NULL CHECK(file_size > 0),
                modified_time INTEGER NOT NULL CHECK(modified_time >= 0),
                cached_at INTEGER NOT NULL CHECK(cached_at > 0),
                xxhash3 TEXT NOT NULL CHECK(length(xxhash3) = 32),
                crc32 TEXT NOT NULL CHECK(length(crc32) = 8),
                md5 TEXT NOT NULL CHECK(length(md5) = 32),
                sha1 TEXT NOT NULL CHECK(length(sha1) = 40),
                CHECK(xxhash3 NOT GLOB '*[^0-9a-fA-F]*'),
                CHECK(crc32 NOT GLOB '*[^0-9a-fA-F]*'),
                CHECK(md5 NOT GLOB '*[^0-9a-fA-F]*'),
                CHECK(sha1 NOT GLOB '*[^0-9a-fA-F]*')
            ) WITHOUT ROWID";

/// Creates the index that serves lookups by size, time and fast digest.
pub const CREATE_VALIDATION_INDEX_SQL: &'static str =
    "CREATE INDEX IF NOT EXISTS idx_cache_validation
             ON hash_cache(file_size, modified_time, xxhash3)";

/// Creates the index that serves the expiry sweep.
pub const CREATE_CLEANUP_INDEX_SQL: &'static str =
    "CREATE INDEX IF NOT EXISTS idx_cache_cleanup
             ON hash_cache(cached_at)";

/// Creates the table of settings.
pub const CREATE_SETTINGS_SQL: &'static str =
    "CREATE TABLE IF NOT EXISTS settings (
                key TEXT PRIMARY KEY,
                value TEXT NOT NULL
            )";

/// Creates the table that holds the schema version.
pub const CREATE_METADATA_SQL: &'static str =
    "CREATE TABLE IF NOT EXISTS metadata (key TEXT PRIMARY KEY, value TEXT)";

/// Records the schema version; its one parameter is the version.
pub const RECORD_VERSION_SQL: &'static str =
    "INSERT OR REPLACE INTO metadata (key, value) VALUES ('version', ?1)";

/// Reads the schema version as text, `0` where none is recorded.
pub const READ_VERSION_SQL: &'static str =
    "SELECT COALESCE((SELECT value FROM metadata WHERE key = 'version'), '0')";

/// Writes one row; its eight parameters are the fields of an entry in the
/// order path, size, modification time, caching time, then the four digests.
pub const INSERT_ROW_SQL: &'static str =
    "INSERT OR REPLACE INTO hash_cache
                 (path, file_size, modified_time, cached_at, xxhash3, crc32, md5, sha1)
                 VALUES (?1, ?2, ?3, ?4, ?5, ?6, ?7, ?8)";

/// Deletes the rows cached before the time given as its one parameter.
pub const DELETE_EXPIRED_SQL: &'static str = "DELETE FROM hash_cache WHERE cached_at < ?1";

/// Deletes every row.
pub const DELETE_ALL_SQL: &'static str = "DELETE FROM hash_cache";

/// Deletes the row of the path given as its one parameter.
pub const DELETE_ROW_SQL: &'static str = "DELETE FROM hash_cache WHERE path = ?1";

/// Writes a setting; its parameters are key and value.
pub const SAVE_SETTING_SQL: &'static str =
    "INSERT OR REPLACE INTO settings (key, value) VALUES (?1, ?2)";

/// Reads the setting whose key is its one parameter.
pub const READ_SETTING_SQL: &'static str = "SELECT value FROM settings WHERE key = ?1";

/// Reads the number of pages of the store file.
pub const PAGE_COUNT_SQL: &'static str = "PRAGMA page_count";

/// Reads the number of unused pages of the store file.
pub const FREE_PAGES_SQL: &'static str = "PRAGMA freelist_count";

/// Rebuilds the store file without its unused pages.
pub const VACUUM_SQL: &'static str = "VACUUM";

/// Refreshes the statistics of the query planner.
pub const ANALYZE_SQL: &'static str = "ANALYZE";

/// How a pool of connections is sized.
#[derive(Debug, Clone, Copy, PartialEq, Eq, Structural)]
pub struct PoolSettings {
    pub max_size: u32,
    pub min_idle: u32,
    /// How long a caller waits for a connection before the pool counts as
    /// exhausted.
    pub connection_timeout_secs: u64,
}

/// The pool for readers: up to ten connections, two kept ready, five seconds
/// of patience.
pub open spec fn spec_read_pool() -> PoolSettings {
    PoolSettings { max_size: 10, min_idle: 2, connection_timeout_secs: 5 }
}

/// The pool for writers: two connections, one kept ready, ten seconds of
/// patience. It is small so that writers take turns.
pub open spec fn spec_write_pool() -> PoolSettings {
    PoolSettings { max_size: 2, min_idle: 1, connection_timeout_secs: 10 }
}

pub fn read_pool_settings() -> (settings: PoolSettings)
    ensures
        settings == spec_read_pool(),
{
    PoolSettings { max_size: 10, min_idle: 2, connection_timeout_secs: 5 }
}

pub fn write_pool_settings() -> (settings: PoolSettings)
    ensures
        settings == spec_write_pool(),
{
    PoolSettings { max_size: 2, min_idle: 1, connection_timeout_secs: 10 }
}

/// The statements run on every new connection, in order. The first returns a
/// row; a failure of any of them is ignored.
pub fn connection_pragmas() -> (pragmas: Vec<&'static str>)
    ensures
        pragmas@.len() == 5,
        pragmas@[0]@ == "PRAGMA journal_mode=WAL"@,
        pragmas@[1]@ == "PRAGMA synchronous=NORMAL"@,
        pragmas@[2]@ == "PRAGMA cache_size=-64000"@,
        pragmas@[3]@ == "PRAGMA mmap_size=268435456"@,
        pragmas@[4]@ == "PRAGMA temp_store=MEMORY"@,
{
    let mut pragmas: Vec<&'static str> = Vec::new();
    pragmas.push("PRAGMA journal_mode=WAL");
    pragmas.push("PRAGMA synchronous=NORMAL");
    pragmas.push("PRAGMA cache_size=-64000");
    pragmas.push("PRAGMA mmap_size=268435456");
    pragmas.push("PRAGMA temp_store=MEMORY");
    pragmas
}

/// One statement of the start-up sequence with the words that describe a
/// failure of it.
#[derive(Debug, Clone, Copy)]
pub struct StartupStatement {
    pub sql: &'static str,
    pub failure_context: &'static str,
}

/// What is to be run when the store is opened.
pub struct StartupPlan {
    /// Run in one transaction, with the current version bound to the second
    /// statement; empty where the store is up to date.
    pub migration: Vec<StartupStatement>,
    /// Run after the migration, each on its own.
    pub schema: Vec<StartupStatement>,
}

/// Whether a store at `stored_version` has a migration pending.
pub open spec fn spec_needs_migration(stored_version: u32) -> bool {
    stored_version < CURRENT_CACHE_VERSION
}

/// Plans the start-up of a store whose recorded schema version is
/// `stored_version` (0 where none is recorded). A store behind the current
/// version gets its version table created and the current version recorded,
/// in one transaction; running this again changes nothing. Every store then
/// gets the cache table, its two indexes and the settings table, each created
/// only if missing.
pub fn startup_plan(stored_version: u32) -> (plan: StartupPlan)
    ensures
        spec_needs_migration(stored_version) ==> plan.migration@.len() == 2
            && plan.migration@[0].sql@ == CREATE_METADATA_SQL@ && plan.migration@[1].sql@
            == RECORD_VERSION_SQL@,
        !spec_needs_migration(stored_version) ==> plan.migration@.len() == 0,
        plan.schema@.len() == 4,
        plan.schema@[0].sql@ == CREATE_HASH_CACHE_SQL@,
        plan.schema@[1].sql@ == CREATE_VALIDATION_INDEX_SQL@,
        plan.schema@[2].sql@ == CREATE_CLEANUP_INDEX_SQL@,
        plan.schema@[3].sql@ == CREATE_SETTINGS_SQL@,
        spec_needs_migration(stored_version) ==> plan.migration@[0].failure_context@
            == "failed to create metadata table"@ && plan.migration@[1].failure_context@
            == "failed to update version"@,
        plan.schema@[0].failure_context@ == "failed to create hash_cache table"@,
        plan.schema@[1].failure_context@ == "failed to create validation index"@,
        plan.schema@[2].failure_context@ == "failed to create cleanup index"@,
        plan.schema@[3].failure_context@ == "failed to create settings table"@,
{
    let mut migration: Vec<StartupStatement> = Vec::new();
    if stored_version < CURRENT_CACHE_VERSION {
        migration.push(
            StartupStatement {
                sql: CREATE_METADATA_SQL,
                failure_context: "failed to create metadata table",
            },
        );
        migration.push(
            StartupStatement { sql: RECORD_VERSION_SQL, failure_context: "failed to update version" },
        );
    }
    let mut schema: Vec<StartupStatement> = Vec::new();
    schema.push(
        StartupStatement {
            sql: CREATE_HASH_CACHE_SQL,
            failure_context: "failed to create hash_cache table",
        },
    );
    schema.push(
        StartupStatement {
            sql: CREATE_VALIDATION_INDEX_SQL,
            failure_context: "failed to create validation index",
        },
    );
    schema.push(
        StartupStatement {
            sql: CREATE_CLEANUP_INDEX_SQL,
            failure_context: "failed to create cleanup index",
        },
    );
    schema.push(
        StartupStatement {
            sql: CREATE_SETTINGS_SQL,
            failure_context: "failed to create settings table",
        },
    );
    StartupPlan { migration, schema }
}

/// The schema version that the text read from the store spells: the number,
/// or 0 where nothing could be read or the text spells no number.
pub fn parse_stored_version(text: Option<&str>) -> (version: u32)
    ensures
        version == match text {
            Some(t) => match spec_parse_unsigned(t@, u32::MAX as nat) {
                Some(n) => n as u32,
                None => 0u32,
            },
            None => 0u32,
        },
{
    match text {
        Some(t) => match parse_u32(t) {
            Some(n) => n,
            None => 0,
        },
        None => 0,
    }
}

/// The table of cache rows as a map from path to row.
pub type StoreModel = Map<Seq<char>, CacheEntryView>;

/// Every row is stored under its own path and meets the constraints.
pub open spec fn spec_store_wf(store: StoreModel) -> bool {
    forall|k: Seq<char>| #[trigger]
        store.dom().contains(k) ==> store[k].path == k && store[k].storable()
}

/// The table after an attempt to write `row`: a row that meets the
/// constraints replaces whatever was stored under its path; any other row is
/// rejected and the table stays as it was.
pub open spec fn spec_write_row(store: StoreModel, row: CacheEntryView) -> StoreModel {
    if row.storable() {
        store.insert(row.path, row)
    } else {
        store
    }
}

/// The table after the rows were written one after the other.
pub open spec fn spec_write_rows(store: StoreModel, rows: Seq<CacheEntryView>) -> StoreModel
    decreases rows.len(),
{
    if rows.len() == 0 {
        store
    } else {
        spec_write_row(spec_write_rows(store, rows.drop_last()), rows.last())
    }
}

/// The table after the rows cached before `cutoff` were deleted.
pub open spec fn spec_delete_before(store: StoreModel, cutoff: u64) -> StoreModel {
    Map::new(
        |k: Seq<char>| store.dom().contains(k) && store[k].cached_at >= cutoff,
        |k: Seq<char>| store[k],
    )
}

/// Whether `rows` is what a select of `keys` may return from the table: each
/// row is the stored row of one of the keys, and each key that is stored has
/// its row among them.
pub open spec fn spec_is_selection(
    store: StoreModel,
    keys: Seq<Seq<char>>,
    rows: Seq<CacheEntry>,
) -> bool {
    &&& forall|j: int|
        0 <= j < rows.len() ==> keys.contains(#[trigger] rows[j].path@) && store.dom().contains(
            rows[j].path@,
        ) && rows[j]@ == store[rows[j].path@]
    &&& forall|i: int|
        0 <= i < keys.len() && store.dom().contains(#[trigger] keys[i]) ==> exists|j: int|
            0 <= j < rows.len() && #[trigger] rows[j].path@ == keys[i]
}

/// The rows that a batch of entries is written as: each entry that meets the
/// constraints, under its cache key, in the order of the batch. Entries that
/// break a constraint are left out.
pub open spec fn spec_rows_to_save(entries: Seq<CacheEntry>, keys: Seq<String>) -> Seq<
    CacheEntryView,
>
    decreases entries.len(),
{
    if entries.len() == 0 || keys.len() == 0 {
        Seq::empty()
    } else {
        let rest = spec_rows_to_save(entries.drop_last(), keys.drop_last());
        let row = entries.last()@.with_path(keys.last()@);
        if row.storable() {
            rest.push(row)
        } else {
            rest
        }
    }
}

/// The views of a sequence of entries.
pub open spec fn spec_entry_views(rows: Seq<CacheEntry>) -> Seq<CacheEntryView> {
    rows.map_values(|r: CacheEntry| r@)
}

/// Selects the rows to write for a batch of entries. `keys` holds the cache
/// key of each entry, at the same index.
pub fn rows_to_save(entries: &Vec<CacheEntry>, keys: &Vec<String>) -> (rows: Vec<CacheEntry>)
    requires
        entries.len() == keys.len(),
    ensures
        spec_entry_views(rows@) == spec_rows_to_save(entries@, keys@),
        rows.len() <= entries.len(),
        forall|j: int| 0 <= j < rows.len() ==> (#[trigger] rows[j])@.storable(),
{
    let mut rows: Vec<CacheEntry> = Vec::new();
    let mut i: usize = 0;
    assert(entries@.take(0) =~= Seq::<CacheEntry>::empty());
    while i < entries.len()
        invariant
            i <= entries.len(),
            entries.len() == keys.len(),
            rows.len() <= i,
            spec_entry_views(rows@) == spec_rows_to_save(
                entries@.take(i as int),
                keys@.take(i as int),
            ),
            forall|j: int| 0 <= j < rows.len() ==> (#[trigger] rows[j])@.storable(),
        decreases entries.len() - i,
    {
        proof {
            assert(entries@.take(i + 1).drop_last() =~= entries@.take(i as int));
            assert(keys@.take(i + 1).drop_last() =~= keys@.take(i as int));
            assert(entries@.take(i + 1).last() == entries@[i as int]);
            assert(keys@.take(i + 1).last() == keys@[i as int]);
        }
        let entry = &entries[i];
        if entry.is_storable() {
            let ghost before = spec_entry_views(rows@);
            let row = CacheEntry {
                path: keys[i].clone(),
                file_size: entry.file_size,
                modified_time: entry.modified_time,
                cached_at: entry.cached_at,
                xxhash3: entry.xxhash3.clone(),
                crc32: entry.crc32.clone(),
                md5: entry.md5.clone(),
                sha1: entry.sha1.clone(),
            };
            assert(row@ == entry@.with_path(keys@[i as int]@));
            rows.push(row);
            assert(spec_entry_views(rows@) =~= before.push(row@));
        }
        i += 1;
    }
    assert(entries@.take(i as int) =~= entries@);
    assert(keys@.take(i as int) =~= keys@);
    rows
}

/// The time before which rows count as expired: `retention_days` whole days
/// before `now_secs`, not below 0. A retention of 0 days switches expiry off.
pub open spec fn spec_cleanup_cutoff(retention_days: u32, now_secs: u64) -> Option<u64> {
    if retention_days == 0 {
        None
    } else if now_secs >= retention_days * SECONDS_PER_DAY {
        Some((now_secs - retention_days * SECONDS_PER_DAY) as u64)
    } else {
        Some(0)
    }
}

/// Computes the cutoff of an expiry sweep at the time `now_secs`, in seconds
/// since the epoch, or `None` where expiry is switched off.
pub fn cleanup_cutoff(retention_days: u32, now_secs: u64) -> (cutoff: Option<u64>)
    ensures
        cutoff == spec_cleanup_cutoff(retention_days, now_secs),
{
    if retention_days == 0 {
        None
    } else {
        let days: u64 = retention_days as u64;
        let span: u64 = days * SECONDS_PER_DAY;
        if now_secs >= span {
            Some(now_secs - span)
        } else {
            Some(0)
        }
    }
}

/// Whether unused pages are more than 30% of the pages of the store file.
pub open spec fn spec_should_vacuum(page_count: i64, free_pages: i64) -> bool {
    page_count > 0 && free_pages * 10 > page_count * 3
}

/// Decides whether space is to be reclaimed, from the two page counts of the
/// store file.
pub fn should_vacuum(page_count: i64, free_pages: i64) -> (due: bool)
    ensures
        due == spec_should_vacuum(page_count, free_pages),
{
    let free: i128 = free_pages as i128;
    let pages: i128 = page_count as i128;
    page_count > 0 && free * 10 > pages * 3
}

/// The table after a sweep planned at `now_secs`: untouched where expiry is
/// switched off.
pub open spec fn spec_after_cleanup(store: StoreModel, retention_days: u32, now_secs: u64) -> StoreModel {
    match spec_cleanup_cutoff(retention_days, now_secs) {
        Some(cutoff) => spec_delete_before(store, cutoff),
        None => store,
    }
}

/// Writing a row and sweeping keep the table well formed: every row stays
/// under its own path and meets the constraints.
pub proof fn lemma_store_stays_wf(store: StoreModel, row: CacheEntryView, cutoff: u64)
    requires
        spec_store_wf(store),
    ensures
        spec_store_wf(spec_write_row(store, row)),
        spec_store_wf(spec_delete_before(store, cutoff)),
{
}

/// An expiry sweep removes a row exactly when it was cached more than the
/// retention before now, and leaves every other row as it was. With a
/// retention of 0 days nothing is ever removed.
pub proof fn lemma_cleanup_removes_only_expired(
    store: StoreModel,
    retention_days: u32,
    now_secs: u64,
    k: Seq<char>,
)
    requires
        store.dom().contains(k),
    ensures
        ({
            let after = spec_after_cleanup(store, retention_days, now_secs);
            &&& !after.dom().contains(k) <==> retention_days > 0 && store[k].cached_at
                + retention_days * SECONDS_PER_DAY < now_secs
            &&& after.dom().contains(k) ==> after[k] == store[k]
            &&& after.dom().subset_of(store.dom())
        }),
{
}

/// A row that breaks a constraint is never written: the batch holds no row
/// for it, none is counted as saved, and the table stays as it was.
pub proof fn lemma_invalid_row_rejected(store: StoreModel, entry: CacheEntry, key: String)
    requires
        !entry@.storable(),
    ensures
        spec_rows_to_save(seq![entry], seq![key]).len() == 0,
        spec_write_rows(store, spec_rows_to_save(seq![entry], seq![key])) == store,
        spec_write_row(store, entry@.with_path(key@)) == store,
{
    let entries = seq![entry];
    let keys = seq![key];
    assert(entries.drop_last() =~= Seq::<CacheEntry>::empty());
    assert(keys.drop_last() =~= Seq::<String>::empty());
    assert(spec_rows_to_save(entries.drop_last(), keys.drop_last()).len() == 0);
    assert(entries.last() == entry && keys.last() == key);
    assert(spec_rows_to_save(entries, keys).len() == 0);
}

/// Saving an entry and looking its path up gives the entry back: after a
/// batch that holds one entry meeting the constraints is written, whatever a
/// select of its cache key returns, the lookup result holds the entry, equal
/// in every field but stored under the cache key, both under the path as the
/// entry spelled it and under the cache key.
pub proof fn lemma_save_then_lookup(
    store: StoreModel,
    entry: CacheEntry,
    key: String,
    found: Seq<CacheEntry>,
)
    requires
        entry@.storable(),
        spec_is_selection(
            spec_write_rows(store, spec_rows_to_save(seq![entry], seq![key])),
            seq![key@],
            found,
        ),
    ensures
        ({
            let resolved = seq![ResolvedPath { given: entry.path, normalized: key }];
            let result = spec_lookup(resolved, found);
            &&& result.dom().contains(entry.path@)
            &&& result[entry.path@] matches Some(r) && r@ == entry@.with_path(key@)
            &&& result.dom().contains(key@)
            &&& result[key@] matches Some(r) && r@ == entry@.with_path(key@)
        }),
{
    let entries = seq![entry];
    let keys = seq![key];
    let row = entry@.with_path(key@);
    assert(entries.drop_last() =~= Seq::<CacheEntry>::empty());
    assert(keys.drop_last() =~= Seq::<String>::empty());
    assert(spec_rows_to_save(entries.drop_last(), keys.drop_last()) =~= Seq::empty());
    assert(entries.last() == entry && keys.last() == key);
    let rows = spec_rows_to_save(entries, keys);
    assert(rows =~= seq![row]);
    assert(rows.drop_last() =~= Seq::<CacheEntryView>::empty());
    assert(rows.last() == row);
    let after = spec_write_rows(store, rows);
    assert(spec_write_rows(store, rows.drop_last()) == store);
    assert(after == store.insert(key@, row));
    let wanted = seq![key@];
    assert(wanted[0] == key@);
    assert(after.dom().contains(wanted[0]));
    let j = choose|j: int| 0 <= j < found.len() && #[trigger] found[j].path@ == wanted[0];
    lemma_row_for(found, key@);
    lemma_row_for(found, entry.path@);
    let resolved = seq![ResolvedPath { given: entry.path, normalized: key }];
    let givens = crate::lookup::spec_given(resolved);
    let norms = crate::lookup::spec_normalized(resolved);
    assert(givens =~= seq![entry.path@]);
    assert(norms =~= seq![key@]);
    lemma_position(givens, entry.path@);
    lemma_position(norms, entry.path@);
    lemma_position(norms, key@);
    assert(spec_row_for(found, key@) matches Some(r) && r@ == row) by {
        assert(found[j].path@ == key@);
        let r = spec_row_for(found, key@).unwrap();
        let i = choose|i: int| 0 <= i < found.len() && found[i] == r;
        assert(found[i]@ == after[found[i].path@]);
    }
    if entry.path@ != key@ {
        assert(spec_row_for(found, entry.path@).is_none()) by {
            if spec_row_for(found, entry.path@).is_some() {
                let r = spec_row_for(found, entry.path@).unwrap();
                let i = choose|i: int| 0 <= i < found.len() && found[i] == r;
                assert(wanted.contains(found[i].path@));
            }
        }
        assert(givens[0] == entry.path@);
        assert(norms[0] == key@);
    }
}

} // verus!
