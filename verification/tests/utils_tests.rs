use turbohash::error::{
    classify_store_failure, CacheErrorKind, CacheOperation, ClockFailure, HashError, IoErrorContext,
    IoFailure, IoFailureKind, StoreFailure, StoreFailureClass, WalkFailure,
};
use turbohash::scanner::{is_discovered_file, EntryKind};
use turbohash::text::is_hex_digest;
use turbohash::utils::format_duration;

fn with_floats(ms: u64) -> String {
    if ms < 1000 {
        format!("{}ms", ms)
    } else if ms < 60_000 {
        format!("{:.1}s", ms as f64 / 1000.0)
    } else {
        let seconds = ms / 1000;
        format!("{}m{}s", seconds / 60, seconds % 60)
    }
}

#[test]
fn durations_for_display() {
    assert_eq!(format_duration(0), "0ms");
    assert_eq!(format_duration(999), "999ms");
    assert_eq!(format_duration(1000), "1.0s");
    assert_eq!(format_duration(1500), "1.5s");
    assert_eq!(format_duration(12_340), "12.3s");
    assert_eq!(format_duration(12_360), "12.4s");
    assert_eq!(format_duration(60_000), "1m0s");
    assert_eq!(format_duration(61_999), "1m1s");
    assert_eq!(format_duration(3_600_000), "60m0s");
    assert_eq!(format_duration(u64::MAX), with_floats(u64::MAX));
}

#[test]
fn durations_agree_with_floating_point_on_every_millisecond() {
    for ms in 0..130_000u64 {
        assert_eq!(format_duration(ms), with_floats(ms), "ms {}", ms);
    }
}

#[test]
fn hex_digests_have_exact_length() {
    assert!(is_hex_digest("01234567", 8));
    assert!(is_hex_digest("abcdefAB", 8));
    assert!(!is_hex_digest("0123456", 8));
    assert!(!is_hex_digest("012345678", 8));
    assert!(!is_hex_digest("0123456g", 8));
    assert!(is_hex_digest("", 0));
    assert!(!is_hex_digest("abc", 3));
    assert!(!is_hex_digest("ab\u{e9}", 4));
    assert!(!is_hex_digest("ab\u{e9}", 3));
}

#[test]
fn only_regular_files_are_discovered() {
    assert!(is_discovered_file(EntryKind::File));
    assert!(!is_discovered_file(EntryKind::Directory));
    assert!(!is_discovered_file(EntryKind::SymbolicLink));
    assert!(!is_discovered_file(EntryKind::Other));
}

fn failure(class: StoreFailureClass, message: Option<&str>) -> StoreFailure {
    StoreFailure {
        class,
        message: message.map(|m| m.to_string()),
        debug: "Debug".to_string(),
        display: "Display".to_string(),
    }
}

#[test]
fn store_failures_are_classified() {
    assert!(matches!(
        classify_store_failure(&failure(StoreFailureClass::ConstraintViolation, Some("CHECK failed"))),
        CacheErrorKind::ConstraintViolation(m) if m == "CHECK failed"
    ));
    assert!(matches!(
        classify_store_failure(&failure(StoreFailureClass::ConstraintViolation, None)),
        CacheErrorKind::ConstraintViolation(m) if m == "unknown"
    ));
    assert!(matches!(
        classify_store_failure(&failure(StoreFailureClass::DatabaseBusy, None)),
        CacheErrorKind::DatabaseLocked
    ));
    assert!(matches!(
        classify_store_failure(&failure(StoreFailureClass::DatabaseLocked, Some("x"))),
        CacheErrorKind::DatabaseLocked
    ));
    assert!(matches!(
        classify_store_failure(&failure(StoreFailureClass::OtherEngineFailure, Some("disk full"))),
        CacheErrorKind::QueryFailed(m) if m == "Debug: disk full"
    ));
    assert!(matches!(
        classify_store_failure(&failure(StoreFailureClass::OtherEngineFailure, None)),
        CacheErrorKind::QueryFailed(m) if m == "Debug: unknown"
    ));
    assert!(matches!(
        classify_store_failure(&failure(StoreFailureClass::NoRows, None)),
        CacheErrorKind::QueryFailed(m) if m == "no rows returned"
    ));
    assert!(matches!(
        classify_store_failure(&failure(StoreFailureClass::Other, None)),
        CacheErrorKind::QueryFailed(m) if m == "Display"
    ));
}

#[test]
fn retryable_failures_are_told_from_lasting_ones() {
    assert!(CacheErrorKind::DatabaseLocked.is_retryable());
    assert!(CacheErrorKind::PoolExhausted.is_retryable());
    assert!(!CacheErrorKind::ConstraintViolation("x".to_string()).is_retryable());
    assert!(!CacheErrorKind::QueryFailed("x".to_string()).is_retryable());
    assert!(!CacheErrorKind::InvalidPath("x".to_string()).is_retryable());
    assert!(!CacheErrorKind::ConnectionFailed("x".to_string()).is_retryable());
}

#[test]
fn io_results_get_their_path() {
    let ok: Result<u32, IoFailure> = Ok(5);
    assert!(matches!(ok.with_path("/p"), Ok(5)));
    let failed: Result<u32, IoFailure> =
        Err(IoFailure { kind: IoFailureKind::PermissionDenied, message: "denied".to_string() });
    match failed.with_path("/p") {
        Err(HashError::Io(f, p)) => {
            assert_eq!(f.kind, IoFailureKind::PermissionDenied);
            assert_eq!(p, "/p");
        }
        other => panic!("unexpected: {:?}", other),
    }
}

#[test]
fn errors_have_messages() {
    assert_eq!(CacheOperation::BatchRead.to_string(), "批量读取");
    assert_eq!(CacheOperation::BatchWrite.to_string(), "批量写入");
    assert_eq!(CacheOperation::Cleanup.to_string(), "清理过期");
    assert_eq!(CacheOperation::Migrate.to_string(), "数据库迁移");
    assert_eq!(CacheOperation::Connection.to_string(), "连接池");
    assert_eq!(CacheOperation::PathNormalization.to_string(), "路径规范化");
    assert_eq!(CacheErrorKind::ConnectionFailed("a".to_string()).to_string(), "连接失败: a");
    assert_eq!(CacheErrorKind::DatabaseLocked.to_string(), "数据库锁定");
    assert_eq!(CacheErrorKind::ConstraintViolation("b".to_string()).to_string(), "约束违反: b");
    assert_eq!(CacheErrorKind::QueryFailed("c".to_string()).to_string(), "查询失败: c");
    assert_eq!(CacheErrorKind::InvalidPath("d".to_string()).to_string(), "无效路径: d");
    assert_eq!(CacheErrorKind::PoolExhausted.to_string(), "连接池耗尽");

    let io = HashError::Io(
        IoFailure { kind: IoFailureKind::NotFound, message: "gone".to_string() },
        "/p".to_string(),
    );
    assert_eq!(io.to_string(), "IO错误: gone (路径: /p)");
    assert_eq!(HashError::FontLoadFailed("f".to_string()).to_string(), "字体加载失败: f");
    let cache = HashError::Cache {
        operation: CacheOperation::Cleanup,
        kind: CacheErrorKind::DatabaseLocked,
        context: "ctx".to_string(),
    };
    assert_eq!(cache.to_string(), "缓存错误 [清理过期] 数据库锁定 - ctx");
    assert_eq!(HashError::SystemResource("r".to_string()).to_string(), "系统资源错误: r");
    assert_eq!(
        HashError::FileTooLarge("/big".to_string()).to_string(),
        "文件过大（超过32位系统限制）: /big"
    );
}

#[test]
fn failures_convert_into_errors() {
    let io = IoFailure { kind: IoFailureKind::Other, message: "m".to_string() };
    assert!(matches!(HashError::from(io), HashError::Io(f, p) if f.message == "m" && p == "unknown"));

    match HashError::from(failure(StoreFailureClass::Other, None)) {
        HashError::Cache { operation, kind: CacheErrorKind::QueryFailed(m), context } => {
            assert_eq!(operation, CacheOperation::Connection);
            assert_eq!(m, "Display");
            assert_eq!(context, "legacy conversion");
        }
        other => panic!("unexpected: {:?}", other),
    }

    let walk = WalkFailure {
        path: Some("/d".to_string()),
        io: Some(IoFailure { kind: IoFailureKind::NotFound, message: "nf".to_string() }),
        display: "walk".to_string(),
    };
    assert!(matches!(HashError::from(walk), HashError::Io(f, p)
        if f.kind == IoFailureKind::NotFound && f.message == "nf" && p == "/d"));
    let walk = WalkFailure { path: None, io: None, display: "loop".to_string() };
    assert!(matches!(HashError::from(walk), HashError::Io(f, p)
        if f.kind == IoFailureKind::Other && f.message == "loop" && p == "unknown"));

    let clock = ClockFailure { display: "before epoch".to_string() };
    assert!(matches!(HashError::from(clock), HashError::SystemResource(m)
        if m == "System time error: before epoch"));
}
