use rusqlite::Connection;
use turbohash::cache::{CacheConfig, CacheEntry, PathNormalizer, CURRENT_CACHE_VERSION};
use turbohash::error::{
    CacheErrorKind, CacheOperation, HashError, IntoCacheError, IoFailure, IoFailureKind,
    StoreFailure, StoreFailureClass,
};
use turbohash::lookup::{collect_lookup, lookup_queries, row_for, ResolvedPath};
use turbohash::pool::{keys_for_batch, HashCachePool, PoolKind, StoredSettings};
use turbohash::store::{
    cleanup_cutoff, connection_pragmas, read_pool_settings, rows_to_save, should_vacuum,
    startup_plan, write_pool_settings, DELETE_ALL_SQL, DELETE_EXPIRED_SQL, DELETE_ROW_SQL,
    INSERT_ROW_SQL, READ_SETTING_SQL, READ_VERSION_SQL, RECORD_VERSION_SQL, SAVE_SETTING_SQL,
};

fn to_failure(error: rusqlite::Error) -> StoreFailure {
    let display = error.to_string();
    let debug = format!("{:?}", error);
    match &error {
        rusqlite::Error::SqliteFailure(e, message) => StoreFailure {
            class: match e.code {
                rusqlite::ErrorCode::ConstraintViolation => StoreFailureClass::ConstraintViolation,
                rusqlite::ErrorCode::DatabaseBusy => StoreFailureClass::DatabaseBusy,
                rusqlite::ErrorCode::DatabaseLocked => StoreFailureClass::DatabaseLocked,
                _ => StoreFailureClass::OtherEngineFailure,
            },
            message: message.clone(),
            debug,
            display,
        },
        rusqlite::Error::QueryReturnedNoRows => {
            StoreFailure { class: StoreFailureClass::NoRows, message: None, debug, display }
        }
        _ => StoreFailure { class: StoreFailureClass::Other, message: None, debug, display },
    }
}

fn stored_version(conn: &Connection) -> u32 {
    conn.query_row(READ_VERSION_SQL, (), |row| row.get::<_, String>(0))
        .ok()
        .and_then(|text| turbohash::numbers::parse_u32(&text))
        .unwrap_or(0)
}

fn open_store() -> Connection {
    let conn = Connection::open_in_memory().unwrap();
    for pragma in connection_pragmas() {
        let _ = conn.query_row(pragma, (), |_| Ok(()));
    }
    let plan = startup_plan(stored_version(&conn));
    for statement in &plan.migration {
        if statement.sql == RECORD_VERSION_SQL {
            conn.execute(statement.sql, (CURRENT_CACHE_VERSION,)).unwrap();
        } else {
            conn.execute(statement.sql, ()).unwrap();
        }
    }
    for statement in &plan.schema {
        conn.execute(statement.sql, ()).unwrap();
    }
    conn
}

fn try_insert(conn: &Connection, row: &CacheEntry) -> Result<usize, rusqlite::Error> {
    conn.execute(
        INSERT_ROW_SQL,
        (
            row.path.as_str(),
            row.file_size as i64,
            row.modified_time as i64,
            row.cached_at as i64,
            row.xxhash3.as_str(),
            row.crc32.as_str(),
            row.md5.as_str(),
            row.sha1.as_str(),
        ),
    )
}

fn save_batch(conn: &Connection, pool: &mut HashCachePool, entries: &[CacheEntry]) -> usize {
    let entries: Vec<CacheEntry> = entries.to_vec();
    let keys: Vec<String> = entries
        .iter()
        .map(|e| pool.path_normalizer.normalize(&e.path, Ok(e.path.clone())).unwrap())
        .collect();
    let rows = pool.save_entries_batch(&entries, &keys);
    let mut saved = 0;
    for row in &rows {
        if try_insert(conn, row).is_ok() {
            saved += 1;
        }
    }
    saved
}

fn query_batch(
    conn: &Connection,
    pool: &mut HashCachePool,
    paths: &[String],
) -> turbohash::pathmap::PathMap<Option<CacheEntry>> {
    let resolved: Vec<ResolvedPath> = paths
        .iter()
        .map(|p| ResolvedPath {
            given: p.clone(),
            normalized: pool.path_normalizer.normalize(p, Ok(p.clone())).unwrap(),
        })
        .collect();
    let mut rows = Vec::new();
    for query in lookup_queries(&resolved) {
        let mut statement = conn.prepare(&query.sql).unwrap();
        let found = statement
            .query_map(rusqlite::params_from_iter(query.params.iter()), |row| {
                Ok(CacheEntry {
                    path: row.get(0)?,
                    file_size: row.get::<_, i64>(1)? as u64,
                    modified_time: row.get::<_, i64>(2)? as u64,
                    cached_at: row.get::<_, i64>(3)? as u64,
                    xxhash3: row.get(4)?,
                    crc32: row.get(5)?,
                    md5: row.get(6)?,
                    sha1: row.get(7)?,
                })
            })
            .unwrap();
        for row in found {
            rows.push(row.unwrap());
        }
    }
    pool.get_by_paths_batch(&resolved, &rows)
}

fn entry(i: u64, cached_at: u64) -> CacheEntry {
    CacheEntry {
        path: format!("/tmp/cache/file{}.txt", i),
        file_size: 1024 * (i + 1),
        modified_time: 12345 + i,
        cached_at,
        xxhash3: format!("{:032}", i),
        crc32: format!("{:08x}", i),
        md5: format!("{:032}", i),
        sha1: format!("{:040}", i),
    }
}

fn same(a: &CacheEntry, b: &CacheEntry) -> bool {
    a.path == b.path
        && a.file_size == b.file_size
        && a.modified_time == b.modified_time
        && a.cached_at == b.cached_at
        && a.xxhash3 == b.xxhash3
        && a.crc32 == b.crc32
        && a.md5 == b.md5
        && a.sha1 == b.sha1
}

#[test]
fn test_batch_save_and_query() {
    let conn = open_store();
    let mut pool = HashCachePool::new(CacheConfig::default(), false);

    let entries: Vec<CacheEntry> = (0..10).map(|i| entry(i, 67890)).collect();

    let saved = save_batch(&conn, &mut pool, &entries);
    assert_eq!(saved, 10);

    let paths: Vec<String> = entries.iter().map(|e| e.path.clone()).collect();
    let result = query_batch(&conn, &mut pool, &paths);

    assert_eq!(result.len(), 10);
    for entry in &entries {
        let loaded = result.get(&entry.path).unwrap();
        assert!(loaded.is_some());
        assert_eq!(loaded.as_ref().unwrap().file_size, entry.file_size);
        assert!(same(loaded.as_ref().unwrap(), entry));
    }
}

#[test]
fn test_constraint_validation() {
    let conn = open_store();
    let mut pool = HashCachePool::new(CacheConfig::default(), false);

    let invalid_entry = CacheEntry {
        path: "/tmp/cache/invalid.txt".to_string(),
        file_size: 1024,
        modified_time: 12345,
        cached_at: 67890,
        xxhash3: "too_short".to_string(),
        crc32: "01234567".to_string(),
        md5: "0123456789abcdef0123456789abcdef".to_string(),
        sha1: "0123456789abcdef0123456789abcdef01234567".to_string(),
    };

    let saved = save_batch(&conn, &mut pool, &[invalid_entry.clone()]);
    assert_eq!(saved, 0);

    let result = query_batch(&conn, &mut pool, &[invalid_entry.path.clone()]);
    assert!(result.get(&invalid_entry.path).unwrap().is_none());
}

#[test]
fn test_cleanup_expired() {
    let conn = open_store();
    let mut pool = HashCachePool::new(CacheConfig::default(), false);

    let now: u64 = 1_800_000_000;
    let old_entry = entry(1, now - 40 * 86400);
    let fresh_entry = entry(2, now - 10 * 86400);
    assert_eq!(save_batch(&conn, &mut pool, &[old_entry.clone(), fresh_entry.clone()]), 2);

    let cutoff = pool.cleanup_expired(now).unwrap();
    assert_eq!(cutoff, now - 30 * 86400);
    let deleted = conn.execute(DELETE_EXPIRED_SQL, (cutoff as i64,)).unwrap();
    assert!(deleted > 0);
    assert_eq!(deleted, 1);

    let result = query_batch(&conn, &mut pool, &[old_entry.path.clone(), fresh_entry.path.clone()]);
    assert!(result.get(&old_entry.path).unwrap().is_none());
    assert!(result.get(&fresh_entry.path).unwrap().is_some());
}

#[test]
fn retention_of_zero_days_never_expires() {
    let mut config = CacheConfig::default();
    config.retention_days = 0;
    let pool = HashCachePool::new(config, false);
    assert_eq!(pool.cleanup_expired(1_800_000_000), None);
    assert_eq!(pool.cleanup_expired(u64::MAX), None);
    assert_eq!(cleanup_cutoff(0, 0), None);
}

#[test]
fn cutoff_is_whole_days_before_now() {
    assert_eq!(cleanup_cutoff(30, 1_800_000_000), Some(1_800_000_000 - 2_592_000));
    assert_eq!(cleanup_cutoff(1, 86_400), Some(0));
    assert_eq!(cleanup_cutoff(1, 86_401), Some(1));
    assert_eq!(cleanup_cutoff(30, 100), Some(0));
    assert_eq!(cleanup_cutoff(u32::MAX, u64::MAX), Some(u64::MAX - u32::MAX as u64 * 86_400));
}

#[test]
fn test_settings() {
    let conn = open_store();
    conn.execute(SAVE_SETTING_SQL, ("test_key", "test_value")).unwrap();
    let outcome = conn
        .query_row(READ_SETTING_SQL, ("test_key",), |row| row.get::<_, String>(0))
        .map_err(to_failure);
    let value = HashCachePool::get_setting("test_key", outcome).unwrap();
    assert_eq!(value, Some("test_value".to_string()));

    let missing = conn
        .query_row(READ_SETTING_SQL, ("absent",), |row| row.get::<_, String>(0))
        .map_err(to_failure);
    assert_eq!(HashCachePool::get_setting("absent", missing).unwrap(), None);

    let broken = conn
        .query_row("SELECT value FROM no_such_table", (), |row| row.get::<_, String>(0))
        .map_err(to_failure);
    match HashCachePool::get_setting("k", broken) {
        Err(HashError::Cache { operation, kind: CacheErrorKind::QueryFailed(_), context }) => {
            assert_eq!(operation, CacheOperation::Connection);
            assert_eq!(context, "failed to get setting: k");
        }
        other => panic!("unexpected: {:?}", other),
    }
}

#[test]
fn test_config_persistence() {
    let conn = open_store();

    let mut config = CacheConfig::default();
    config.min_file_size = 2048 * 1024;
    config.retention_days = 60;

    for (key, value) in HashCachePool::save_cache_config(&config) {
        conn.execute(SAVE_SETTING_SQL, (key, value)).unwrap();
    }
    let read = |key: &str| -> Option<String> {
        let outcome = conn
            .query_row(READ_SETTING_SQL, (key,), |row| row.get::<_, String>(0))
            .map_err(to_failure);
        HashCachePool::get_setting(key, outcome).ok().flatten()
    };
    let stored = StoredSettings {
        min_file_size: read("min_file_size"),
        retention_days: read("retention_days"),
        buffer_size: read("buffer_size"),
        mmap_chunk_size: read("mmap_chunk_size"),
        auto_compute_enabled: read("auto_compute_enabled"),
        uppercase_display: read("uppercase_display"),
    };
    let loaded = HashCachePool::load_cache_config(&stored).unwrap();

    assert_eq!(loaded.min_file_size, 2048 * 1024);
    assert_eq!(loaded.retention_days, 60);
    assert_eq!(loaded, config);
}

#[test]
fn store_and_library_agree_on_the_constraints() {
    let conn = open_store();
    let good = entry(3, 67890);
    let mut cases: Vec<CacheEntry> = Vec::new();
    cases.push(good.clone());
    let mut c = good.clone();
    c.file_size = 0;
    cases.push(c);
    let mut c = good.clone();
    c.cached_at = 0;
    cases.push(c);
    let mut c = good.clone();
    c.modified_time = 0;
    cases.push(c);
    let mut c = good.clone();
    c.modified_time = 1u64 << 63;
    cases.push(c);
    let mut c = good.clone();
    c.file_size = u64::MAX;
    cases.push(c);
    let mut c = good.clone();
    c.xxhash3 = "0123456789abcdef0123456789abcdeg".to_string();
    cases.push(c);
    let mut c = good.clone();
    c.xxhash3 = "0123456789ABCDEF0123456789abcdef".to_string();
    cases.push(c);
    let mut c = good.clone();
    c.crc32 = "1234567".to_string();
    cases.push(c);
    let mut c = good.clone();
    c.crc32 = "12 45678".to_string();
    cases.push(c);
    let mut c = good.clone();
    c.md5 = String::new();
    cases.push(c);
    let mut c = good.clone();
    c.sha1 = format!("{:041}", 1);
    cases.push(c);
    let mut c = good.clone();
    c.sha1 = "zz23456789abcdef0123456789abcdef01234567".to_string();
    cases.push(c);
    let mut c = good.clone();
    c.md5 = "0123456789abcdef0123456789abcd\u{e9}".to_string();
    cases.push(c);

    for case in &cases {
        conn.execute(DELETE_ALL_SQL, ()).unwrap();
        let accepted = try_insert(&conn, case).is_ok();
        assert_eq!(accepted, case.is_storable(), "case {:?}", case);
    }
}

#[test]
fn constraint_failure_is_classified() {
    let conn = open_store();
    let mut bad = entry(4, 67890);
    bad.file_size = 0;
    let outcome: Result<usize, StoreFailure> = try_insert(&conn, &bad).map_err(to_failure);
    match outcome.with_cache_error(CacheOperation::BatchWrite, "insert failed") {
        Err(HashError::Cache { operation, kind, context }) => {
            assert_eq!(operation, CacheOperation::BatchWrite);
            assert!(matches!(kind, CacheErrorKind::ConstraintViolation(_)));
            assert_eq!(context, "insert failed");
        }
        other => panic!("unexpected: {:?}", other),
    }
}

#[test]
fn saving_again_replaces_the_row() {
    let conn = open_store();
    let mut pool = HashCachePool::new(CacheConfig::default(), false);
    let first = entry(5, 100);
    let mut second = entry(5, 200);
    second.file_size = 999;
    assert_eq!(save_batch(&conn, &mut pool, &[first.clone()]), 1);
    assert_eq!(save_batch(&conn, &mut pool, &[second.clone()]), 1);
    let result = query_batch(&conn, &mut pool, &[first.path.clone()]);
    assert!(same(result.get(&first.path).unwrap().as_ref().unwrap(), &second));
}

#[test]
fn invalid_row_in_a_batch_is_skipped() {
    let conn = open_store();
    let mut pool = HashCachePool::new(CacheConfig::default(), false);
    let mut bad = entry(7, 100);
    bad.crc32 = "xyz".to_string();
    let saved = save_batch(&conn, &mut pool, &[entry(6, 100), bad, entry(8, 100)]);
    assert_eq!(saved, 2);
}

#[test]
fn invalidating_and_clearing() {
    let conn = open_store();
    let mut pool = HashCachePool::new(CacheConfig::default(), false);
    let entries: Vec<CacheEntry> = (0..3).map(|i| entry(i, 500)).collect();
    assert_eq!(save_batch(&conn, &mut pool, &entries), 3);
    assert_eq!(conn.execute(DELETE_ROW_SQL, (entries[1].path.as_str(),)).unwrap(), 1);
    let paths: Vec<String> = entries.iter().map(|e| e.path.clone()).collect();
    let result = query_batch(&conn, &mut pool, &paths);
    assert!(result.get(&paths[0]).unwrap().is_some());
    assert!(result.get(&paths[1]).unwrap().is_none());
    assert_eq!(conn.execute(DELETE_ALL_SQL, ()).unwrap(), 2);
}

#[test]
fn migration_runs_once() {
    let conn = open_store();
    assert_eq!(stored_version(&conn), CURRENT_CACHE_VERSION);
    let plan = startup_plan(stored_version(&conn));
    assert!(plan.migration.is_empty());
    assert_eq!(plan.schema.len(), 4);
    for statement in &plan.schema {
        conn.execute(statement.sql, ()).unwrap();
    }
    let fresh = startup_plan(0);
    assert_eq!(fresh.migration.len(), 2);
    assert_eq!(fresh.migration[1].sql, RECORD_VERSION_SQL);
    assert_eq!(startup_plan(2).migration.len(), 2);
    assert_eq!(startup_plan(3).migration.len(), 0);
    assert_eq!(startup_plan(4).migration.len(), 0);
}

#[test]
fn lookups_are_cut_at_the_parameter_limit() {
    let resolved: Vec<ResolvedPath> = (0..2000)
        .map(|i| ResolvedPath { given: format!("o{}", i), normalized: format!("n{}", i) })
        .collect();
    let queries = lookup_queries(&resolved);
    assert_eq!(queries.len(), 3);
    assert_eq!(queries[0].params.len(), 999);
    assert_eq!(queries[1].params.len(), 999);
    assert_eq!(queries[2].params.len(), 2);
    assert_eq!(queries[0].params[0], "n0");
    assert_eq!(queries[1].params[0], "n999");
    assert_eq!(queries[2].params[1], "n1999");
    assert!(queries[2].sql.ends_with("WHERE path IN (?, ?)"));
    assert!(lookup_queries(&Vec::new()).is_empty());
    let exact: Vec<ResolvedPath> = resolved[..999].to_vec();
    assert_eq!(lookup_queries(&exact).len(), 1);
    let one_more: Vec<ResolvedPath> = resolved[..1000].to_vec();
    let queries = lookup_queries(&one_more);
    assert_eq!(queries.len(), 2);
    assert!(queries[1].sql.ends_with("WHERE path IN (?)"));
}

#[test]
fn large_lookup_against_the_store() {
    let conn = open_store();
    let mut pool = HashCachePool::new(CacheConfig::default(), false);
    let entries: Vec<CacheEntry> = (0..1500).map(|i| entry(i, 67890)).collect();
    assert_eq!(save_batch(&conn, &mut pool, &entries), 1500);
    let mut paths: Vec<String> = entries.iter().map(|e| e.path.clone()).collect();
    paths.push("/tmp/cache/unknown.txt".to_string());
    let result = query_batch(&conn, &mut pool, &paths);
    assert_eq!(result.len(), 1501);
    assert!(result.get(&paths[1499]).unwrap().is_some());
    assert!(result.get(&paths[1500]).unwrap().is_none());
    assert!(result.get(&"/never/asked".to_string()).is_none());
}

#[test]
fn every_spelling_is_a_key_of_the_result() {
    let resolved = vec![
        ResolvedPath { given: "./a".to_string(), normalized: "/w/a".to_string() },
        ResolvedPath { given: "a".to_string(), normalized: "/w/a".to_string() },
        ResolvedPath { given: "/w/b".to_string(), normalized: "/w/b".to_string() },
    ];
    let mut row = entry(1, 5);
    row.path = "/w/a".to_string();
    let result = collect_lookup(&resolved, &vec![row.clone()]);
    assert_eq!(result.len(), 4);
    assert!(same(result.get(&"./a".to_string()).unwrap().as_ref().unwrap(), &row));
    assert!(same(result.get(&"a".to_string()).unwrap().as_ref().unwrap(), &row));
    assert!(same(result.get(&"/w/a".to_string()).unwrap().as_ref().unwrap(), &row));
    assert!(result.get(&"/w/b".to_string()).unwrap().is_none());
    assert!(result.get(&"/w/c".to_string()).is_none());
    assert!(collect_lookup(&Vec::new(), &Vec::new()).len() == 0);
}

#[test]
fn the_last_row_of_a_path_wins() {
    let mut first = entry(1, 5);
    first.path = "/p".to_string();
    let mut second = entry(2, 6);
    second.path = "/p".to_string();
    let rows = vec![first, second.clone(), entry(3, 7)];
    assert!(same(&row_for(&rows, &"/p".to_string()).unwrap(), &second));
    assert!(row_for(&rows, &"/q".to_string()).is_none());
}

#[test]
fn rows_are_stored_under_their_keys() {
    let entries = vec![entry(1, 5), entry(2, 6)];
    let keys = vec!["/k/one".to_string(), "/k/two".to_string()];
    let rows = rows_to_save(&entries, &keys);
    assert_eq!(rows.len(), 2);
    assert_eq!(rows[0].path, "/k/one");
    assert_eq!(rows[1].path, "/k/two");
    assert_eq!(rows[1].file_size, entries[1].file_size);
    assert_eq!(rows[1].sha1, entries[1].sha1);
}

#[test]
fn vacuum_is_due_above_thirty_percent() {
    assert!(!should_vacuum(0, 0));
    assert!(!should_vacuum(0, 5));
    assert!(!should_vacuum(10, 3));
    assert!(should_vacuum(10, 4));
    assert!(should_vacuum(1000, 301));
    assert!(!should_vacuum(1000, 300));
    assert!(!should_vacuum(-1, 5));
    assert!(should_vacuum(i64::MAX, i64::MAX));
    assert!(HashCachePool::vacuum_after_cleanup(1, 10, 4));
    assert!(!HashCachePool::vacuum_after_cleanup(0, 10, 4));
    assert!(!HashCachePool::vacuum_after_cleanup(5, 10, 3));
}

#[test]
fn pools_are_sized_for_many_readers_and_one_writer() {
    let read = read_pool_settings();
    assert_eq!((read.max_size, read.min_idle, read.connection_timeout_secs), (10, 2, 5));
    let write = write_pool_settings();
    assert_eq!((write.max_size, write.min_idle, write.connection_timeout_secs), (2, 1, 10));
    assert_eq!(connection_pragmas().len(), 5);
}

#[test]
fn pool_errors_are_told_apart() {
    match HashCachePool::pool_exhausted(PoolKind::Read, "timed out") {
        HashError::Cache { operation, kind: CacheErrorKind::PoolExhausted, context } => {
            assert_eq!(operation, CacheOperation::Connection);
            assert_eq!(context, "read pool timeout: timed out");
        }
        other => panic!("unexpected: {:?}", other),
    }
    match HashCachePool::pool_creation_failed(PoolKind::Write, "no file") {
        HashError::Cache { operation, kind: CacheErrorKind::ConnectionFailed(m), context } => {
            assert_eq!(operation, CacheOperation::Connection);
            assert_eq!(m, "no file");
            assert_eq!(context, "failed to create write pool");
        }
        other => panic!("unexpected: {:?}", other),
    }
    match HashCachePool::invalid_path("/bad") {
        HashError::Cache { operation, kind: CacheErrorKind::InvalidPath(_), context } => {
            assert_eq!(operation, CacheOperation::PathNormalization);
            assert_eq!(context, "path: /bad");
        }
        other => panic!("unexpected: {:?}", other),
    }
    let mut normalizer = PathNormalizer::new();
    assert!(normalizer.normalize(&"p".to_string(), Ok("q".to_string())).is_ok());
}

#[test]
fn a_batch_with_an_unresolvable_path_writes_nothing() {
    let conn = open_store();
    let mut pool = HashCachePool::new(CacheConfig::default(), false);
    let good = entry(1, 100);
    let mut lost = entry(2, 100);
    lost.path = "/tmp/cache/lost.txt".to_string();
    let entries = vec![good.clone(), lost.clone()];
    let paths: Vec<String> = entries.iter().map(|e| e.path.clone()).collect();
    let outcomes = vec![
        pool.path_normalizer.normalize(&good.path, Ok(good.path.clone())),
        pool.path_normalizer.normalize(
            &lost.path,
            Err(IoFailure { kind: IoFailureKind::NotFound, message: "gone".to_string() }),
        ),
    ];
    match keys_for_batch(&paths, outcomes) {
        Err(HashError::Io(_, path)) => assert_eq!(path, lost.path),
        other => panic!("unexpected: {:?}", other),
    }
    let result = query_batch(&conn, &mut pool, &[good.path.clone()]);
    assert!(result.get(&good.path).unwrap().is_none());
}
