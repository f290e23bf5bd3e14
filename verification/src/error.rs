//! The error taxonomy shared by the engine, the cache and the scheduler.

use vstd::prelude::*;
use vstd::string::StringExecFns;

verus! {

/// The cache operation during which a failure was met.
#[derive(Debug, Clone, Copy, PartialEq, Eq, Structural)]
pub enum CacheOperation {
    BatchRead,
    BatchWrite,
    Cleanup,
    Migrate,
    Connection,
    PathNormalization,
}

/// What went wrong inside the cache.
#[derive(Debug, Clone)]
pub enum CacheErrorKind {
    ConnectionFailed(String),
    DatabaseLocked,
    ConstraintViolation(String),
    QueryFailed(String),
    InvalidPath(String),
    PoolExhausted,
}

/// The three classes of I/O failure that callers tell apart.
#[derive(Debug, Clone, Copy, PartialEq, Eq, Structural)]
pub enum IoFailureKind {
    NotFound,
    PermissionDenied,
    Other,
}

/// An I/O failure as plain values: its class and the message of the
/// operating system.
#[derive(Debug, Clone)]
pub struct IoFailure {
    pub kind: IoFailureKind,
    pub message: String,
}

/// How the store classified a failed statement.
#[derive(Debug, Clone, Copy, PartialEq, Eq, Structural)]
pub enum StoreFailureClass {
    /// The statement broke a constraint of the schema.
    ConstraintViolation,
    /// The store file is busy.
    DatabaseBusy,
    /// A table of the store is locked.
    DatabaseLocked,
    /// Any other failure reported by the store engine.
    OtherEngineFailure,
    /// A query that had to return a row returned none.
    NoRows,
    /// A failure outside the store engine.
    Other,
}

/// A failure of the store as plain values.
#[derive(Debug, Clone)]
pub struct StoreFailure {
    pub class: StoreFailureClass,
    /// The message that the store engine attached, if any.
    pub message: Option<String>,
    /// The failure in its debugging form.
    pub debug: String,
    /// The failure in its display form.
    pub display: String,
}

/// A failure met while walking a directory tree, as plain values.
#[derive(Debug, Clone)]
pub struct WalkFailure {
    /// The path at which the walk failed, where it is known.
    pub path: Option<String>,
    /// The I/O failure underneath, where there is one.
    pub io: Option<IoFailure>,
    /// The failure in its display form.
    pub display: String,
}

/// A reading of the system clock that lies before the epoch.
#[derive(Debug, Clone)]
pub struct ClockFailure {
    /// The failure in its display form.
    pub display: String,
}

/// Every failure that the library reports.
#[derive(Debug, Clone)]
pub enum HashError {
    /// An I/O failure, tagged with the path it concerns.
    Io(IoFailure, String),
    FontLoadFailed(String),
    Cache { operation: CacheOperation, kind: CacheErrorKind, context: String },
    SystemResource(String),
    /// The file does not fit the address space of the machine.
    FileTooLarge(String),
}

pub type HashResult<T> = Result<T, HashError>;

/// The text of a store message, or `unknown` where the store gave none.
pub open spec fn spec_message_or_unknown(message: Option<String>) -> Seq<char> {
    match message {
        Some(m) => m@,
        None => "unknown"@,
    }
}

/// The cache error kind that a store failure is reported as.
pub open spec fn spec_classify_store_failure(failure: StoreFailure, kind: CacheErrorKind) -> bool {
    match failure.class {
        StoreFailureClass::ConstraintViolation => kind matches CacheErrorKind::ConstraintViolation(m)
            && m@ == spec_message_or_unknown(failure.message),
        StoreFailureClass::DatabaseBusy | StoreFailureClass::DatabaseLocked => kind
            is DatabaseLocked,
        StoreFailureClass::OtherEngineFailure => kind matches CacheErrorKind::QueryFailed(m) && m@
            == failure.debug@ + ": "@ + spec_message_or_unknown(failure.message),
        StoreFailureClass::NoRows => kind matches CacheErrorKind::QueryFailed(m) && m@
            == "no rows returned"@,
        StoreFailureClass::Other => kind matches CacheErrorKind::QueryFailed(m) && m@
            == failure.display@,
    }
}

fn message_or_unknown(message: &Option<String>) -> (text: String)
    ensures
        text@ == spec_message_or_unknown(*message),
{
    match message {
        Some(m) => m.clone(),
        None => String::from_str("unknown"),
    }
}

/// Classifies a failure of the store: a broken constraint, a busy or locked
/// store, or a failed query with the store's own description.
pub fn classify_store_failure(failure: &StoreFailure) -> (kind: CacheErrorKind)
    ensures
        spec_classify_store_failure(*failure, kind),
{
    match failure.class {
        StoreFailureClass::ConstraintViolation => CacheErrorKind::ConstraintViolation(
            message_or_unknown(&failure.message),
        ),
        StoreFailureClass::DatabaseBusy | StoreFailureClass::DatabaseLocked => {
            CacheErrorKind::DatabaseLocked
        },
        StoreFailureClass::OtherEngineFailure => {
            let mut text = failure.debug.clone();
            text.append(": ");
            let tail = message_or_unknown(&failure.message);
            text.append(tail.as_str());
            CacheErrorKind::QueryFailed(text)
        },
        StoreFailureClass::NoRows => CacheErrorKind::QueryFailed(String::from_str("no rows returned")),
        StoreFailureClass::Other => CacheErrorKind::QueryFailed(failure.display.clone()),
    }
}

/// Attaches the path that an I/O result concerns.
pub trait IoErrorContext<T> {
    fn with_path(self, path: &str) -> HashResult<T>;
}

impl<T> IoErrorContext<T> for Result<T, IoFailure> {
    /// A success passes through; a failure becomes `HashError::Io` with the
    /// given path.
    fn with_path(self, path: &str) -> (out: HashResult<T>)
        ensures
            match self {
                Ok(v) => out == Ok::<T, HashError>(v),
                Err(e) => out matches Err(HashError::Io(f, p)) && f == e && p@ == path@,
            },
    {
        match self {
            Ok(v) => Ok(v),
            Err(e) => Err(HashError::Io(e, String::from_str(path))),
        }
    }
}

/// Turns a result of the store into a result of the library, naming the
/// operation that was under way.
pub trait IntoCacheError<T> {
    fn with_cache_error(self, operation: CacheOperation, context: &str) -> HashResult<T>;
}

impl<T> IntoCacheError<T> for Result<T, StoreFailure> {
    /// A success passes through; a failure becomes `HashError::Cache` with the
    /// given operation and context and the classified kind.
    fn with_cache_error(self, operation: CacheOperation, context: &str) -> (out: HashResult<T>)
        ensures
            match self {
                Ok(v) => out == Ok::<T, HashError>(v),
                Err(e) => out matches Err(HashError::Cache { operation: op, kind, context: ctx })
                    && op == operation && ctx@ == context@ && spec_classify_store_failure(e, kind),
            },
    {
        match self {
            Ok(v) => Ok(v),
            Err(e) => Err(
                HashError::Cache {
                    operation,
                    kind: classify_store_failure(&e),
                    context: String::from_str(context),
                },
            ),
        }
    }
}

} // verus!

verus! {

/// The words for a cache operation.
pub open spec fn spec_operation_text(operation: CacheOperation) -> Seq<char> {
    match operation {
        CacheOperation::BatchRead => "批量读取"@,
        CacheOperation::BatchWrite => "批量写入"@,
        CacheOperation::Cleanup => "清理过期"@,
        CacheOperation::Migrate => "数据库迁移"@,
        CacheOperation::Connection => "连接池"@,
        CacheOperation::PathNormalization => "路径规范化"@,
    }
}

/// The words for a cache error kind, with its detail where it has one.
pub open spec fn spec_kind_text(kind: CacheErrorKind) -> Seq<char> {
    match kind {
        CacheErrorKind::ConnectionFailed(m) => "连接失败: "@ + m@,
        CacheErrorKind::DatabaseLocked => "数据库锁定"@,
        CacheErrorKind::ConstraintViolation(m) => "约束违反: "@ + m@,
        CacheErrorKind::QueryFailed(m) => "查询失败: "@ + m@,
        CacheErrorKind::InvalidPath(m) => "无效路径: "@ + m@,
        CacheErrorKind::PoolExhausted => "连接池耗尽"@,
    }
}

/// The message of an error.
pub open spec fn spec_error_text(error: HashError) -> Seq<char> {
    match error {
        HashError::Io(failure, path) => "IO错误: "@ + failure.message@ + " (路径: "@ + path@ + ")"@,
        HashError::FontLoadFailed(m) => "字体加载失败: "@ + m@,
        HashError::Cache { operation, kind, context } => "缓存错误 ["@ + spec_operation_text(
            operation,
        ) + "] "@ + spec_kind_text(kind) + " - "@ + context@,
        HashError::SystemResource(m) => "系统资源错误: "@ + m@,
        HashError::FileTooLarge(path) => "文件过大（超过32位系统限制）: "@ + path@,
    }
}

impl CacheOperation {
    /// The words for the operation.
    pub fn to_string(&self) -> (text: String)
        ensures
            text@ == spec_operation_text(*self),
    {
        match self {
            CacheOperation::BatchRead => String::from_str("批量读取"),
            CacheOperation::BatchWrite => String::from_str("批量写入"),
            CacheOperation::Cleanup => String::from_str("清理过期"),
            CacheOperation::Migrate => String::from_str("数据库迁移"),
            CacheOperation::Connection => String::from_str("连接池"),
            CacheOperation::PathNormalization => String::from_str("路径规范化"),
        }
    }
}

fn labelled(label: &str, detail: &String) -> (text: String)
    ensures
        text@ == label@ + detail@,
{
    let mut text = String::from_str(label);
    text.append(detail.as_str());
    text
}

impl CacheErrorKind {
    /// The words for the kind, with its detail where it has one.
    pub fn to_string(&self) -> (text: String)
        ensures
            text@ == spec_kind_text(*self),
    {
        match self {
            CacheErrorKind::ConnectionFailed(m) => labelled("连接失败: ", m),
            CacheErrorKind::DatabaseLocked => String::from_str("数据库锁定"),
            CacheErrorKind::ConstraintViolation(m) => labelled("约束违反: ", m),
            CacheErrorKind::QueryFailed(m) => labelled("查询失败: ", m),
            CacheErrorKind::InvalidPath(m) => labelled("无效路径: ", m),
            CacheErrorKind::PoolExhausted => String::from_str("连接池耗尽"),
        }
    }

    /// Whether the failure may pass: the store was locked or no connection
    /// was free. Such an operation can be tried again; any other failure
    /// will repeat.
    pub fn is_retryable(&self) -> (retryable: bool)
        ensures
            retryable == (*self is DatabaseLocked || *self is PoolExhausted),
    {
        match self {
            CacheErrorKind::DatabaseLocked => true,
            CacheErrorKind::PoolExhausted => true,
            _ => false,
        }
    }
}

impl HashError {
    /// The message of the error.
    pub fn to_string(&self) -> (text: String)
        ensures
            text@ == spec_error_text(*self),
    {
        match self {
            HashError::Io(failure, path) => {
                let mut text = labelled("IO错误: ", &failure.message);
                text.append(" (路径: ");
                text.append(path.as_str());
                text.append(")");
                text
            },
            HashError::FontLoadFailed(m) => labelled("字体加载失败: ", m),
            HashError::Cache { operation, kind, context } => {
                let mut text = labelled("缓存错误 [", &operation.to_string());
                text.append("] ");
                let kind_text = kind.to_string();
                text.append(kind_text.as_str());
                text.append(" - ");
                text.append(context.as_str());
                text
            },
            HashError::SystemResource(m) => labelled("系统资源错误: ", m),
            HashError::FileTooLarge(path) => labelled("文件过大（超过32位系统限制）: ", path),
        }
    }
}

impl From<IoFailure> for HashError {
    /// An I/O failure of which the path is not known.
    fn from(failure: IoFailure) -> (error: Self)
        ensures
            error matches HashError::Io(f, p) && f == failure && p@ == "unknown"@,
    {
        HashError::Io(failure, String::from_str("unknown"))
    }
}

/// The conversion writes new text, which no spec function can name: what it
/// gives is stated by the `ensures` of `from`, and `from_spec` binds nothing.
impl vstd::std_specs::convert::FromSpecImpl<IoFailure> for HashError {
    open spec fn obeys_from_spec() -> bool {
        false
    }

    open spec fn from_spec(failure: IoFailure) -> Self {
        HashError::Io(failure, failure.message)
    }
}

impl From<StoreFailure> for HashError {
    /// A failure of the store met outside any named operation.
    fn from(failure: StoreFailure) -> (error: Self)
        ensures
            error matches HashError::Cache { operation, kind, context } && operation
                == CacheOperation::Connection && (kind matches CacheErrorKind::QueryFailed(m) && m
                == failure.display) && context@ == "legacy conversion"@,
    {
        HashError::Cache {
            operation: CacheOperation::Connection,
            kind: CacheErrorKind::QueryFailed(failure.display),
            context: String::from_str("legacy conversion"),
        }
    }
}

/// The conversion writes new text, which no spec function can name: what it
/// gives is stated by the `ensures` of `from`, and `from_spec` binds nothing.
impl vstd::std_specs::convert::FromSpecImpl<StoreFailure> for HashError {
    open spec fn obeys_from_spec() -> bool {
        false
    }

    open spec fn from_spec(failure: StoreFailure) -> Self {
        HashError::SystemResource(failure.display)
    }
}

impl From<WalkFailure> for HashError {
    /// A failure of a directory walk: the I/O failure underneath, or one of
    /// class `Other` with the walk's own words, tagged with the path where it
    /// is known and with `unknown` where it is not.
    fn from(failure: WalkFailure) -> (error: Self)
        ensures
            error matches HashError::Io(f, p) && p@ == (match failure.path {
                Some(path) => path@,
                None => "unknown"@,
            }) && (match failure.io {
                Some(io) => f == io,
                None => f.kind == IoFailureKind::Other && f.message == failure.display,
            }),
    {
        let path = match failure.path {
            Some(path) => path,
            None => String::from_str("unknown"),
        };
        match failure.io {
            Some(io) => HashError::Io(io, path),
            None => HashError::Io(
                IoFailure { kind: IoFailureKind::Other, message: failure.display },
                path,
            ),
        }
    }
}

/// The conversion writes new text, which no spec function can name: what it
/// gives is stated by the `ensures` of `from`, and `from_spec` binds nothing.
impl vstd::std_specs::convert::FromSpecImpl<WalkFailure> for HashError {
    open spec fn obeys_from_spec() -> bool {
        false
    }

    open spec fn from_spec(failure: WalkFailure) -> Self {
        HashError::SystemResource(failure.display)
    }
}

impl From<ClockFailure> for HashError {
    /// A clock that reads before the epoch.
    fn from(failure: ClockFailure) -> (error: Self)
        ensures
            error matches HashError::SystemResource(m) && m@ == "System time error: "@
                + failure.display@,
    {
        HashError::SystemResource(labelled("System time error: ", &failure.display))
    }
}

/// The conversion writes new text, which no spec function can name: what it
/// gives is stated by the `ensures` of `from`, and `from_spec` binds nothing.
impl vstd::std_specs::convert::FromSpecImpl<ClockFailure> for HashError {
    open spec fn obeys_from_spec() -> bool {
        false
    }

    open spec fn from_spec(failure: ClockFailure) -> Self {
        HashError::SystemResource(failure.display)
    }
}

} // verus!
