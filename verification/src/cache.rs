//! The digest cache: its configuration, its entries and the rules that decide
//! whether an entry may be stored or trusted.

use vstd::prelude::*;
use vstd::string::StringExecFns;
use crate::error::{HashError, HashResult, IoFailure};
use crate::pathmap::PathMap;
use crate::text::{is_hex_digest, spec_is_hex_digest};

verus! {

/// The schema version that this library writes.
pub const CURRENT_CACHE_VERSION: u32 = 3;

/// The largest value that the store's signed 64-bit columns can hold.
pub const MAX_STORED_INTEGER: u64 = 0x7FFF_FFFF_FFFF_FFFF;

/// The number of hex characters of each digest.
pub const XXHASH3_HEX_LEN: usize = 32;

pub const CRC32_HEX_LEN: usize = 8;

pub const MD5_HEX_LEN: usize = 32;

pub const SHA1_HEX_LEN: usize = 40;

/// The tunable settings of the cache and the engine.
#[derive(Debug, Clone, Copy, PartialEq, Eq, Structural)]
pub struct CacheConfig {
    pub min_file_size: u64,
    pub retention_days: u32,
    pub buffer_size: usize,
    pub mmap_chunk_size: usize,
    pub auto_compute_enabled: bool,
    pub uppercase_display: bool,
}

/// The settings used where nothing else is configured: files from 1 MiB on
/// are cached, entries are kept 30 days, reads use 256 KiB buffers and 4 MiB
/// mapped windows.
pub open spec fn spec_default_config() -> CacheConfig {
    CacheConfig {
        min_file_size: 1_048_576,
        retention_days: 30,
        buffer_size: 262_144,
        mmap_chunk_size: 4_194_304,
        auto_compute_enabled: true,
        uppercase_display: true,
    }
}

impl Default for CacheConfig {
    fn default() -> (config: Self)
        ensures
            config == spec_default_config(),
    {
        CacheConfig {
            min_file_size: 1024 * 1024,
            retention_days: 30,
            buffer_size: 256 * 1024,
            mmap_chunk_size: 4 * 1024 * 1024,
            auto_compute_enabled: true,
            uppercase_display: true,
        }
    }
}

/// One row of the cache: the digests of a file together with the size and
/// modification time the file had when they were computed.
#[derive(Debug, Clone)]
pub struct CacheEntry {
    pub path: String,
    pub file_size: u64,
    pub modified_time: u64,
    pub cached_at: u64,
    pub xxhash3: String,
    pub crc32: String,
    pub md5: String,
    pub sha1: String,
}

/// A cache entry as plain mathematical values.
pub struct CacheEntryView {
    pub path: Seq<char>,
    pub file_size: u64,
    pub modified_time: u64,
    pub cached_at: u64,
    pub xxhash3: Seq<char>,
    pub crc32: Seq<char>,
    pub md5: Seq<char>,
    pub sha1: Seq<char>,
}

impl View for CacheEntry {
    type V = CacheEntryView;

    open spec fn view(&self) -> CacheEntryView {
        CacheEntryView {
            path: self.path@,
            file_size: self.file_size,
            modified_time: self.modified_time,
            cached_at: self.cached_at,
            xxhash3: self.xxhash3@,
            crc32: self.crc32@,
            md5: self.md5@,
            sha1: self.sha1@,
        }
    }
}

impl CacheEntryView {
    /// The four digests have their exact lengths and hold hex digits only.
    pub open spec fn digests_well_formed(self) -> bool {
        &&& spec_is_hex_digest(self.xxhash3, XXHASH3_HEX_LEN as nat)
        &&& spec_is_hex_digest(self.crc32, CRC32_HEX_LEN as nat)
        &&& spec_is_hex_digest(self.md5, MD5_HEX_LEN as nat)
        &&& spec_is_hex_digest(self.sha1, SHA1_HEX_LEN as nat)
    }

    /// The constraints that the store enforces on a row: a positive size, a
    /// positive caching time, all three numbers within the store's signed
    /// 64-bit range, and well-formed digests.
    pub open spec fn storable(self) -> bool {
        &&& 0 < self.file_size <= MAX_STORED_INTEGER
        &&& self.modified_time <= MAX_STORED_INTEGER
        &&& 0 < self.cached_at <= MAX_STORED_INTEGER
        &&& self.digests_well_formed()
    }

    /// The cheap check: size and modification time are those observed now.
    pub open spec fn matches_metadata(self, file_size: u64, modified_time: u64) -> bool {
        self.file_size == file_size && self.modified_time == modified_time
    }

    /// The same entry under another path.
    pub open spec fn with_path(self, path: Seq<char>) -> CacheEntryView {
        CacheEntryView { path, ..self }
    }
}

/// Why an entry was rejected by the integrity check, or that it passed.
#[derive(Debug, Clone, Copy, PartialEq, Eq, Structural)]
pub enum IntegrityVerdict {
    Valid,
    /// The file's size is not the cached one.
    SizeMismatch { cached: u64, current: u64 },
    /// The file's modification time is not the cached one.
    ModifiedTimeMismatch { cached: u64, current: u64 },
    /// The freshly computed fast digest is not the cached one.
    DigestMismatch,
}

/// The verdict of the integrity check: the first of size, modification time
/// and fast digest that differs, or `Valid` where none does.
pub open spec fn spec_integrity_verdict(
    entry: CacheEntryView,
    computed_xxhash3: Seq<char>,
    file_size: u64,
    modified_time: u64,
) -> IntegrityVerdict {
    if entry.file_size != file_size {
        IntegrityVerdict::SizeMismatch { cached: entry.file_size, current: file_size }
    } else if entry.modified_time != modified_time {
        IntegrityVerdict::ModifiedTimeMismatch {
            cached: entry.modified_time,
            current: modified_time,
        }
    } else if entry.xxhash3 != computed_xxhash3 {
        IntegrityVerdict::DigestMismatch
    } else {
        IntegrityVerdict::Valid
    }
}

impl CacheEntry {
    /// A copy of the entry.
    pub fn duplicate(&self) -> (copy: Self)
        ensures
            copy == *self,
    {
        CacheEntry {
            path: self.path.clone(),
            file_size: self.file_size,
            modified_time: self.modified_time,
            cached_at: self.cached_at,
            xxhash3: self.xxhash3.clone(),
            crc32: self.crc32.clone(),
            md5: self.md5.clone(),
            sha1: self.sha1.clone(),
        }
    }

    /// Whether the four digests have their exact lengths and hold hex digits
    /// only.
    pub fn digests_well_formed(&self) -> (ok: bool)
        ensures
            ok == self@.digests_well_formed(),
    {
        is_hex_digest(self.xxhash3.as_str(), XXHASH3_HEX_LEN) && is_hex_digest(
            self.crc32.as_str(),
            CRC32_HEX_LEN,
        ) && is_hex_digest(self.md5.as_str(), MD5_HEX_LEN) && is_hex_digest(
            self.sha1.as_str(),
            SHA1_HEX_LEN,
        )
    }

    /// Whether the store accepts the entry as a row.
    pub fn is_storable(&self) -> (ok: bool)
        ensures
            ok == self@.storable(),
    {
        0 < self.file_size && self.file_size <= MAX_STORED_INTEGER && self.modified_time
            <= MAX_STORED_INTEGER && 0 < self.cached_at && self.cached_at <= MAX_STORED_INTEGER
            && self.digests_well_formed()
    }

    /// Compares the entry with the file as it is now and says what differs
    /// first.
    pub fn check_integrity(
        &self,
        computed_xxhash3: &str,
        file_size: u64,
        modified_time: u64,
    ) -> (verdict: IntegrityVerdict)
        ensures
            verdict == spec_integrity_verdict(self@, computed_xxhash3@, file_size, modified_time),
    {
        if self.file_size != file_size {
            IntegrityVerdict::SizeMismatch { cached: self.file_size, current: file_size }
        } else if self.modified_time != modified_time {
            IntegrityVerdict::ModifiedTimeMismatch {
                cached: self.modified_time,
                current: modified_time,
            }
        } else {
            let computed = String::from_str(computed_xxhash3);
            if self.xxhash3 == computed {
                IntegrityVerdict::Valid
            } else {
                IntegrityVerdict::DigestMismatch
            }
        }
    }
}

/// Remembers the canonical form of every path it has been shown, so that each
/// path is resolved once.
pub struct PathNormalizer {
    cache: PathMap<String>,
    fold_case: bool,
}

/// The lower-case form of a text, as `str::to_lowercase` gives it.
pub uninterp spec fn spec_lowercase(text: Seq<char>) -> Seq<char>;

/// Calls `str::to_lowercase`, which returns the lower-case equivalent of the
/// text as a new string.
#[verifier::external_body]
fn lowercase(text: &str) -> (lower: String)
    ensures
        lower@ == spec_lowercase(text@),
{
    text.to_lowercase()
}

/// The cache key made from a resolved path: the path itself, or its lower-case
/// form where the file system ignores case.
pub open spec fn spec_cache_key(resolved: Seq<char>, fold_case: bool) -> Seq<char> {
    if fold_case {
        spec_lowercase(resolved)
    } else {
        resolved
    }
}

impl PathNormalizer {
    /// The remembered paths and their canonical forms.
    pub closed spec fn memo(&self) -> Map<Seq<char>, String> {
        self.cache@
    }

    /// Whether resolved paths are folded to lower case.
    pub closed spec fn folds_case(&self) -> bool {
        self.fold_case
    }

    pub closed spec fn wf(&self) -> bool {
        self.cache.wf()
    }

    /// A normalizer that remembers nothing yet and keeps the case of paths.
    pub fn new() -> (normalizer: Self)
        ensures
            normalizer.wf(),
            normalizer.memo() == Map::<Seq<char>, String>::empty(),
            !normalizer.folds_case(),
    {
        let normalizer = PathNormalizer { cache: PathMap::new(), fold_case: false };
        assert(normalizer.memo() =~= Map::<Seq<char>, String>::empty());
        normalizer
    }

    /// A normalizer for a file system that ignores case (`fold_case`) or one
    /// that does not.
    pub fn with_case_folding(fold_case: bool) -> (normalizer: Self)
        ensures
            normalizer.wf(),
            normalizer.memo() == Map::<Seq<char>, String>::empty(),
            normalizer.folds_case() == fold_case,
    {
        let normalizer = PathNormalizer { cache: PathMap::new(), fold_case };
        assert(normalizer.memo() =~= Map::<Seq<char>, String>::empty());
        normalizer
    }

    /// The canonical form remembered for `path`, if there is one.
    pub fn cached(&self, path: &String) -> (hit: Option<String>)
        requires
            self.wf(),
        ensures
            match hit {
                Some(key) => self.memo().contains_key(path@) && key == self.memo()[path@],
                None => !self.memo().contains_key(path@),
            },
    {
        match self.cache.get(path) {
            Some(key) => Some(key.clone()),
            None => None,
        }
    }

    /// Gives the cache key of `path`. A remembered path returns what was
    /// remembered and `resolved` is not looked at. Otherwise `resolved` is
    /// what resolving the path on the file system gave: a failure is reported
    /// with the path, a success is turned into the key, remembered and
    /// returned.
    pub fn normalize(&mut self, path: &String, resolved: Result<String, IoFailure>) -> (out:
        HashResult<String>)
        requires
            old(self).wf(),
        ensures
            final(self).wf(),
            final(self).folds_case() == old(self).folds_case(),
            match spec_normalize(
                old(self).memo(),
                old(self).folds_case(),
                path@,
                match resolved {
                    Ok(canonical) => Some(canonical@),
                    Err(_) => None,
                },
            ) {
                Some(key) => out matches Ok(k) && k@ == key,
                None => out.is_err(),
            },
            old(self).memo().contains_key(path@) ==> out == Ok::<String, HashError>(
                old(self).memo()[path@],
            ) && final(self).memo() == old(self).memo(),
            !old(self).memo().contains_key(path@) ==> match resolved {
                Ok(canonical) => out matches Ok(key) && key@ == spec_cache_key(
                    canonical@,
                    old(self).folds_case(),
                ) && final(self).memo() == old(self).memo().insert(path@, key),
                Err(failure) => out matches Err(HashError::Io(f, p)) && f == failure && p@
                    == path@ && final(self).memo() == old(self).memo(),
            },
    {
        match self.cache.get(path) {
            Some(key) => {
                return Ok(key.clone());
            },
            None => {},
        }
        match resolved {
            Err(failure) => Err(HashError::Io(failure, path.clone())),
            Ok(canonical) => {
                let key = if self.fold_case {
                    lowercase(canonical.as_str())
                } else {
                    canonical
                };
                self.cache.insert(path.clone(), key.clone());
                Ok(key)
            },
        }
    }
}

} // verus!

verus! {

/// The cache key of a path whose resolving gave `resolution`; none where
/// resolving failed.
pub open spec fn spec_key_of(resolution: Option<Seq<char>>, fold_case: bool) -> Option<Seq<char>> {
    match resolution {
        Some(canonical) => Some(spec_cache_key(canonical, fold_case)),
        None => None,
    }
}

/// Two spellings of one file share one cache key: whatever resolves paths,
/// two paths that it resolves to the same place get the same key.
pub proof fn lemma_same_file_same_key(
    resolve: spec_fn(Seq<char>) -> Option<Seq<char>>,
    first: Seq<char>,
    second: Seq<char>,
    fold_case: bool,
)
    requires
        resolve(first) == resolve(second),
    ensures
        spec_key_of(resolve(first), fold_case) == spec_key_of(resolve(second), fold_case),
{
}

/// Normalizing is idempotent wherever resolving is: if every resolved path
/// resolves to itself, then the key of a key is the key. Stated for keys
/// whose case is kept.
pub proof fn lemma_normalizing_is_idempotent(
    resolve: spec_fn(Seq<char>) -> Option<Seq<char>>,
    path: Seq<char>,
)
    requires
        forall|p: Seq<char>| (#[trigger] resolve(p)) matches Some(c) ==> resolve(c) == Some(c),
        resolve(path).is_some(),
    ensures
        ({
            let key = spec_key_of(resolve(path), false).unwrap();
            spec_key_of(resolve(key), false) == Some(key)
        }),
{
}

/// Normalizing is idempotent on a file system that ignores case as well: if
/// the lower-case form of every resolved path resolves to a path with the
/// same lower-case form, then the key of a folded key is the key.
pub proof fn lemma_normalizing_folded_is_idempotent(
    resolve: spec_fn(Seq<char>) -> Option<Seq<char>>,
    path: Seq<char>,
)
    requires
        forall|p: Seq<char>| (#[trigger] resolve(p)) matches Some(c) ==> (resolve(
            spec_lowercase(c),
        ) matches Some(d) && spec_lowercase(d) == spec_lowercase(c)),
        resolve(path).is_some(),
    ensures
        ({
            let key = spec_key_of(resolve(path), true).unwrap();
            spec_key_of(resolve(key), true) == Some(key)
        }),
{
}

/// What `normalize` returns for `path`, as text: what the memo remembers, or
/// else the key made from what resolving gave; none where resolving failed.
pub open spec fn spec_normalize(
    memo: Map<Seq<char>, String>,
    fold_case: bool,
    path: Seq<char>,
    resolution: Option<Seq<char>>,
) -> Option<Seq<char>> {
    if memo.contains_key(path) {
        Some(memo[path]@)
    } else {
        spec_key_of(resolution, fold_case)
    }
}

/// Whether a memo holds nothing but keys that `resolve` accounts for.
pub open spec fn spec_memo_agrees(
    memo: Map<Seq<char>, String>,
    resolve: spec_fn(Seq<char>) -> Option<Seq<char>>,
    fold_case: bool,
) -> bool {
    forall|p: Seq<char>| #[trigger]
        memo.contains_key(p) ==> spec_key_of(resolve(p), fold_case) == Some(memo[p]@)
}

/// Whether keys resolve to themselves: the key made from any resolved path
/// is the key made from what the key resolves to.
pub open spec fn spec_keys_are_fixed(
    resolve: spec_fn(Seq<char>) -> Option<Seq<char>>,
    fold_case: bool,
) -> bool {
    forall|p: Seq<char>| (#[trigger] resolve(p)) matches Some(c) ==> spec_key_of(
        resolve(spec_cache_key(c, fold_case)),
        fold_case,
    ) == Some(spec_cache_key(c, fold_case))
}

/// Remembering a key that `resolve` accounts for keeps the memo in
/// agreement with `resolve`.
pub proof fn lemma_memo_stays_in_agreement(
    memo: Map<Seq<char>, String>,
    resolve: spec_fn(Seq<char>) -> Option<Seq<char>>,
    fold_case: bool,
    path: Seq<char>,
    key: String,
)
    requires
        spec_memo_agrees(memo, resolve, fold_case),
        spec_key_of(resolve(path), fold_case) == Some(key@),
    ensures
        spec_memo_agrees(memo.insert(path, key), resolve, fold_case),
{
    assert forall|p: Seq<char>| #[trigger]
        memo.insert(path, key).contains_key(p) implies spec_key_of(resolve(p), fold_case)
        == Some(memo.insert(path, key)[p]@) by {
        if p != path {
            assert(memo.contains_key(p));
        }
    }
}

/// Normalizing a key gives the key, and two spellings of one file get one
/// key, with or without case folding: on a normalizer whose memo agrees with
/// a resolver under which keys resolve to themselves, the key returned for a
/// path is returned again when the key itself is normalized, whatever the
/// memo has come to hold, and two paths that resolve alike get the same key.
pub proof fn lemma_normalize_again(
    resolve: spec_fn(Seq<char>) -> Option<Seq<char>>,
    fold_case: bool,
    memo: Map<Seq<char>, String>,
    later: Map<Seq<char>, String>,
    path: Seq<char>,
    other: Seq<char>,
)
    requires
        spec_keys_are_fixed(resolve, fold_case),
        spec_memo_agrees(memo, resolve, fold_case),
        spec_memo_agrees(later, resolve, fold_case),
        spec_normalize(memo, fold_case, path, resolve(path)).is_some(),
    ensures
        ({
            let key = spec_normalize(memo, fold_case, path, resolve(path)).unwrap();
            &&& spec_normalize(later, fold_case, key, resolve(key)) == Some(key)
            &&& resolve(other) == resolve(path) ==> spec_normalize(
                later,
                fold_case,
                other,
                resolve(other),
            ) == Some(key)
        }),
{
    let key = spec_normalize(memo, fold_case, path, resolve(path)).unwrap();
    if memo.contains_key(path) {
        assert(spec_key_of(resolve(path), fold_case) == Some(memo[path]@));
    }
    assert(spec_key_of(resolve(path), fold_case) == Some(key));
    let canonical = resolve(path).unwrap();
    assert(key == spec_cache_key(canonical, fold_case));
    assert(spec_key_of(resolve(key), fold_case) == Some(key));
    if later.contains_key(key) {
        assert(spec_key_of(resolve(key), fold_case) == Some(later[key]@));
    }
    if resolve(other) == resolve(path) && later.contains_key(other) {
        assert(spec_key_of(resolve(other), fold_case) == Some(later[other]@));
    }
}

} // verus!
