//! Batched cache lookups: how the keys of a lookup are cut into statements of
//! bounded size, and how the rows that come back are turned into a result
//! keyed by both spellings of every path.

use vstd::prelude::*;
use vstd::string::StringExecFns;
use crate::cache::CacheEntry;
use crate::pathmap::{PathMap, spec_position, lemma_position};

verus! {

/// The largest number of bound parameters that one statement may carry.
pub const MAX_BOUND_PARAMETERS: usize = 999;

/// A path as the caller spelled it, with the cache key it normalizes to.
#[derive(Debug, Clone)]
pub struct ResolvedPath {
    pub given: String,
    pub normalized: String,
}

/// The spellings of the callers, in order.
pub open spec fn spec_given(resolved: Seq<ResolvedPath>) -> Seq<Seq<char>> {
    resolved.map_values(|r: ResolvedPath| r.given@)
}

/// The cache keys, in order.
pub open spec fn spec_normalized(resolved: Seq<ResolvedPath>) -> Seq<Seq<char>> {
    resolved.map_values(|r: ResolvedPath| r.normalized@)
}

/// The last of `rows` stored under `key`, if there is one.
pub open spec fn spec_row_for(rows: Seq<CacheEntry>, key: Seq<char>) -> Option<CacheEntry>
    decreases rows.len(),
{
    if rows.len() == 0 {
        None
    } else if rows.last().path@ == key {
        Some(rows.last())
    } else {
        spec_row_for(rows.drop_last(), key)
    }
}

/// Whether the result of a lookup has the key `k`: it is a spelling of a
/// caller, a cache key, or the path of a row.
pub open spec fn spec_lookup_contains(
    resolved: Seq<ResolvedPath>,
    rows: Seq<CacheEntry>,
    k: Seq<char>,
) -> bool {
    spec_row_for(rows, k).is_some() || spec_position(spec_normalized(resolved), k) >= 0
        || spec_position(spec_given(resolved), k) >= 0
}

/// What the result of a lookup holds under `k`. A cache key, and the path of
/// any row, maps to the row stored under it, or to `None`. A caller's
/// spelling that is no cache key maps to what its cache key maps to.
pub open spec fn spec_lookup_value(
    resolved: Seq<ResolvedPath>,
    rows: Seq<CacheEntry>,
    k: Seq<char>,
) -> Option<CacheEntry> {
    if spec_row_for(rows, k).is_some() || spec_position(spec_normalized(resolved), k) >= 0 {
        spec_row_for(rows, k)
    } else {
        spec_row_for(
            rows,
            spec_normalized(resolved)[spec_position(spec_given(resolved), k)],
        )
    }
}

/// The result of a lookup as a map.
pub open spec fn spec_lookup(resolved: Seq<ResolvedPath>, rows: Seq<CacheEntry>) -> Map<
    Seq<char>,
    Option<CacheEntry>,
> {
    Map::new(
        |k: Seq<char>| spec_lookup_contains(resolved, rows, k),
        |k: Seq<char>| spec_lookup_value(resolved, rows, k),
    )
}

/// `count` question marks separated by a comma and a space.
pub open spec fn spec_placeholders(count: nat) -> Seq<char>
    decreases count,
{
    if count == 0 {
        Seq::empty()
    } else if count == 1 {
        "?"@
    } else {
        spec_placeholders((count - 1) as nat) + ", ?"@
    }
}

/// The statement that selects the rows of `count` keys.
pub open spec fn spec_lookup_sql(count: nat) -> Seq<char> {
    "SELECT path, file_size, modified_time, cached_at, xxhash3, crc32, md5, sha1 FROM hash_cache WHERE path IN ("@
        + spec_placeholders(count) + ")"@
}

/// One statement of a batched lookup with the keys bound to it.
#[derive(Debug, Clone)]
pub struct LookupQuery {
    pub sql: String,
    pub params: Vec<String>,
}

/// The keys bound to a statement, as plain values.
pub open spec fn spec_params(query: LookupQuery) -> Seq<Seq<char>> {
    query.params@.map_values(|p: String| p@)
}

/// The number of statements that `count` keys are cut into.
pub open spec fn spec_query_count(count: nat) -> nat {
    ((count + MAX_BOUND_PARAMETERS - 1) / (MAX_BOUND_PARAMETERS as int)) as nat
}

/// The end of the `index`-th chunk of `count` keys.
pub open spec fn spec_chunk_end(count: nat, index: nat) -> nat {
    if (index + 1) * MAX_BOUND_PARAMETERS <= count {
        ((index + 1) * MAX_BOUND_PARAMETERS) as nat
    } else {
        count
    }
}

fn placeholders(count: usize) -> (text: String)
    ensures
        text@ == spec_placeholders(count as nat),
{
    let mut text = String::new();
    let mut i: usize = 0;
    while i < count
        invariant
            i <= count,
            text@ == spec_placeholders(i as nat),
        decreases count - i,
    {
        if i == 0 {
            text.append("?");
            assert(text@ =~= "?"@);
        } else {
            text.append(", ?");
        }
        i += 1;
    }
    text
}

fn lookup_sql(count: usize) -> (sql: String)
    ensures
        sql@ == spec_lookup_sql(count as nat),
{
    let mut sql = String::from_str(
        "SELECT path, file_size, modified_time, cached_at, xxhash3, crc32, md5, sha1 FROM hash_cache WHERE path IN (",
    );
    let marks = placeholders(count);
    sql.append(marks.as_str());
    sql.append(")");
    sql
}

/// Cuts the cache keys of a lookup into statements of at most
/// `MAX_BOUND_PARAMETERS` keys each. Every statement but the last is full,
/// the keys keep their order, and no statement is empty.
pub fn lookup_queries(resolved: &Vec<ResolvedPath>) -> (queries: Vec<LookupQuery>)
    ensures
        queries.len() == spec_query_count(resolved.len() as nat),
        forall|q: int|
            0 <= q < queries.len() ==> {
                &&& spec_params(#[trigger] queries[q]) == spec_normalized(resolved@).subrange(
                    q * MAX_BOUND_PARAMETERS,
                    spec_chunk_end(resolved.len() as nat, q as nat) as int,
                )
                &&& 1 <= queries[q].params.len() <= MAX_BOUND_PARAMETERS
                &&& queries[q].sql@ == spec_lookup_sql(queries[q].params.len() as nat)
            },
{
    let n = resolved.len();
    let mut queries: Vec<LookupQuery> = Vec::new();
    let mut start: usize = 0;
    while start < n
        invariant
            n == resolved.len(),
            start <= n,
            start == queries.len() * MAX_BOUND_PARAMETERS || start == n,
            start == n ==> queries.len() == spec_query_count(n as nat),
            start < n ==> start == queries.len() * MAX_BOUND_PARAMETERS,
            forall|q: int|
                0 <= q < queries.len() ==> {
                    &&& spec_params(#[trigger] queries[q]) == spec_normalized(
                        resolved@,
                    ).subrange(
                        q * MAX_BOUND_PARAMETERS,
                        spec_chunk_end(n as nat, q as nat) as int,
                    )
                    &&& 1 <= queries[q].params.len() <= MAX_BOUND_PARAMETERS
                    &&& queries[q].sql@ == spec_lookup_sql(queries[q].params.len() as nat)
                },
        decreases n - start,
    {
        let end: usize = if n - start > MAX_BOUND_PARAMETERS {
            start + MAX_BOUND_PARAMETERS
        } else {
            n
        };
        let mut params: Vec<String> = Vec::new();
        let mut i: usize = start;
        while i < end
            invariant
                start <= i <= end <= n,
                n == resolved.len(),
                params.len() == i - start,
                params@.map_values(|p: String| p@) == spec_normalized(resolved@).subrange(
                    start as int,
                    i as int,
                ),
            decreases end - i,
        {
            let ghost before = params@.map_values(|p: String| p@);
            params.push(resolved[i].normalized.clone());
            assert(params@.map_values(|p: String| p@) =~= before.push(resolved[i as int].normalized@));
            assert(params@.map_values(|p: String| p@) =~= spec_normalized(resolved@).subrange(
                start as int,
                i + 1,
            ));
            i += 1;
        }
        let sql = lookup_sql(params.len());
        let ghost q = queries.len() as int;
        let ghost old_queries = queries@;
        assert(spec_chunk_end(n as nat, q as nat) == end);
        queries.push(LookupQuery { sql, params });
        assert(forall|j: int| 0 <= j < q ==> queries[j] == old_queries[j]);
        start = end;
    }
    queries
}

/// The last of `rows` stored under `key`, if there is one.
pub fn row_for(rows: &Vec<CacheEntry>, key: &String) -> (found: Option<CacheEntry>)
    ensures
        found == spec_row_for(rows@, key@),
{
    let mut i: usize = rows.len();
    assert(rows@.take(i as int) =~= rows@);
    while i > 0
        invariant
            i <= rows.len(),
            spec_row_for(rows@, key@) == spec_row_for(rows@.take(i as int), key@),
        decreases i,
    {
        assert(rows@.take(i as int).last() == rows@[i - 1]);
        assert(rows@.take(i as int).drop_last() =~= rows@.take(i - 1));
        if rows[i - 1].path == *key {
            return Some(rows[i - 1].duplicate());
        }
        i -= 1;
    }
    None
}

/// The row found for a key is one of the rows and is stored under that key;
/// where none is found, no row is stored under it.
pub proof fn lemma_row_for(rows: Seq<CacheEntry>, key: Seq<char>)
    ensures
        match spec_row_for(rows, key) {
            Some(r) => r.path@ == key && exists|j: int| 0 <= j < rows.len() && rows[j] == r,
            None => forall|j: int| 0 <= j < rows.len() ==> (#[trigger] rows[j]).path@ != key,
        },
    decreases rows.len(),
{
    if rows.len() > 0 {
        if rows.last().path@ == key {
            assert(rows[rows.len() - 1] == rows.last());
        } else {
            lemma_row_for(rows.drop_last(), key);
            match spec_row_for(rows.drop_last(), key) {
                Some(r) => {
                    let j = choose|j: int|
                        0 <= j < rows.drop_last().len() && rows.drop_last()[j] == r;
                    assert(rows[j] == r);
                },
                None => {
                    assert forall|j: int| 0 <= j < rows.len() implies (#[trigger] rows[j]).path@
                        != key by {
                        if j < rows.len() - 1 {
                            assert(rows.drop_last()[j] == rows[j]);
                        }
                    }
                },
            }
        }
    }
}

/// The position of a key among the first `i + 1` keys, from its position
/// among the first `i`.
proof fn lemma_position_take_step(keys: Seq<Seq<char>>, i: int, k: Seq<char>)
    requires
        0 <= i < keys.len(),
    ensures
        spec_position(keys.take(i + 1), k) == (if keys[i] == k && spec_position(keys.take(i), k)
            < 0 {
            i
        } else {
            spec_position(keys.take(i), k)
        }),
{
    assert(keys.take(i + 1).drop_last() =~= keys.take(i));
    assert(keys.take(i + 1).last() == keys[i]);
}

/// The row for a key among the first `j + 1` rows, from the row among the
/// first `j`.
proof fn lemma_row_for_take_step(rows: Seq<CacheEntry>, j: int, k: Seq<char>)
    requires
        0 <= j < rows.len(),
    ensures
        spec_row_for(rows.take(j + 1), k) == (if rows[j].path@ == k {
            Some(rows[j])
        } else {
            spec_row_for(rows.take(j), k)
        }),
{
    assert(rows.take(j + 1).drop_last() =~= rows.take(j));
    assert(rows.take(j + 1).last() == rows[j]);
}

/// What holds of the key `k` while the spellings are entered: after `i` of
/// them, the keys are the spellings seen and each maps to the row of its
/// cache key.
spec fn spellings_entered(
    map: Map<Seq<char>, Option<CacheEntry>>,
    givens: Seq<Seq<char>>,
    norms: Seq<Seq<char>>,
    rows: Seq<CacheEntry>,
    i: int,
    k: Seq<char>,
) -> bool {
    let at = spec_position(givens.take(i), k);
    &&& map.dom().contains(k) <==> at >= 0
    &&& map.dom().contains(k) ==> map[k] == spec_row_for(rows, norms[at])
}

/// What holds of the key `k` while the cache keys are entered.
spec fn keys_entered(
    map: Map<Seq<char>, Option<CacheEntry>>,
    givens: Seq<Seq<char>>,
    norms: Seq<Seq<char>>,
    rows: Seq<CacheEntry>,
    i: int,
    k: Seq<char>,
) -> bool {
    let as_key = spec_position(norms.take(i), k);
    let as_spelling = spec_position(givens, k);
    &&& map.dom().contains(k) <==> (as_key >= 0 || as_spelling >= 0)
    &&& map.dom().contains(k) ==> map[k] == (if as_key >= 0 {
        spec_row_for(rows, k)
    } else {
        spec_row_for(rows, norms[as_spelling])
    })
}

/// What holds of the key `k` while the rows are entered.
spec fn rows_entered(
    map: Map<Seq<char>, Option<CacheEntry>>,
    givens: Seq<Seq<char>>,
    norms: Seq<Seq<char>>,
    rows: Seq<CacheEntry>,
    j: int,
    k: Seq<char>,
) -> bool {
    let row = spec_row_for(rows.take(j), k);
    let as_key = spec_position(norms, k);
    let as_spelling = spec_position(givens, k);
    &&& map.dom().contains(k) <==> (row.is_some() || as_key >= 0 || as_spelling >= 0)
    &&& map.dom().contains(k) ==> map[k] == (if row.is_some() {
        row
    } else if as_key >= 0 {
        spec_row_for(rows, k)
    } else {
        spec_row_for(rows, norms[as_spelling])
    })
}

/// Builds the result of a batched lookup from the rows that the statements
/// returned. Every spelling of a caller and every cache key is a key of the
/// result, found or not, so that callers need not normalize again.
pub fn collect_lookup(resolved: &Vec<ResolvedPath>, rows: &Vec<CacheEntry>) -> (result: PathMap<
    Option<CacheEntry>,
>)
    ensures
        result.wf(),
        result@ == spec_lookup(resolved@, rows@),
{
    let ghost givens = spec_given(resolved@);
    let ghost norms = spec_normalized(resolved@);
    let n = resolved.len();
    let mut result: PathMap<Option<CacheEntry>> = PathMap::new();
    let mut i: usize = 0;
    while i < n
        invariant
            n == resolved.len(),
            i <= n,
            givens == spec_given(resolved@),
            norms == spec_normalized(resolved@),
            result.wf(),
            forall|k: Seq<char>| #[trigger] spellings_entered(result@, givens, norms, rows@, i as int, k),
        decreases n - i,
    {
        let ghost before = result@;
        let ghost spelling = resolved@[i as int].given@;
        let ghost key = resolved@[i as int].normalized@;
        assert(givens[i as int] == spelling);
        assert(norms[i as int] == key);
        assert(spellings_entered(before, givens, norms, rows@, i as int, spelling));
        if result.position(&resolved[i].given).is_none() {
            let row = row_for(rows, &resolved[i].normalized);
            result.insert(resolved[i].given.clone(), row);
        }
        proof {
            assert forall|k: Seq<char>| #[trigger]
                spellings_entered(result@, givens, norms, rows@, i + 1, k) by {
                assert(spellings_entered(before, givens, norms, rows@, i as int, k));
                lemma_position_take_step(givens, i as int, k);
                lemma_position(givens.take(i as int), k);
            }
        }
        i += 1;
    }
    assert(givens.take(n as int) =~= givens);
    let mut i: usize = 0;
    assert forall|k: Seq<char>| #[trigger]
        keys_entered(result@, givens, norms, rows@, 0, k) by {
        assert(spellings_entered(result@, givens, norms, rows@, n as int, k));
    }
    while i < n
        invariant
            n == resolved.len(),
            i <= n,
            givens == spec_given(resolved@),
            norms == spec_normalized(resolved@),
            result.wf(),
            forall|k: Seq<char>| #[trigger] keys_entered(result@, givens, norms, rows@, i as int, k),
        decreases n - i,
    {
        let ghost before = result@;
        assert(norms[i as int] == resolved@[i as int].normalized@);
        let row = row_for(rows, &resolved[i].normalized);
        result.insert(resolved[i].normalized.clone(), row);
        proof {
            assert forall|k: Seq<char>| #[trigger]
                keys_entered(result@, givens, norms, rows@, i + 1, k) by {
                assert(keys_entered(before, givens, norms, rows@, i as int, k));
                lemma_position_take_step(norms, i as int, k);
                lemma_position(norms.take(i as int), k);
            }
        }
        i += 1;
    }
    assert(norms.take(n as int) =~= norms);
    let m = rows.len();
    let mut j: usize = 0;
    assert forall|k: Seq<char>| #[trigger]
        rows_entered(result@, givens, norms, rows@, 0, k) by {
        assert(keys_entered(result@, givens, norms, rows@, n as int, k));
    }
    while j < m
        invariant
            m == rows.len(),
            j <= m,
            givens == spec_given(resolved@),
            norms == spec_normalized(resolved@),
            result.wf(),
            forall|k: Seq<char>| #[trigger] rows_entered(result@, givens, norms, rows@, j as int, k),
        decreases m - j,
    {
        let ghost before = result@;
        result.insert(rows[j].path.clone(), Some(rows[j].duplicate()));
        proof {
            assert forall|k: Seq<char>| #[trigger]
                rows_entered(result@, givens, norms, rows@, j + 1, k) by {
                assert(rows_entered(before, givens, norms, rows@, j as int, k));
                lemma_row_for_take_step(rows@, j as int, k);
            }
        }
        j += 1;
    }
    assert(rows@.take(m as int) =~= rows@);
    let ghost expected = spec_lookup(resolved@, rows@);
    assert forall|k: Seq<char>|
        result@.dom().contains(k) == #[trigger] expected.dom().contains(k) && (
        result@.dom().contains(k) ==> result@[k] == expected[k]) by {
        assert(rows_entered(result@, givens, norms, rows@, m as int, k));
        assert(expected.dom().contains(k) == spec_lookup_contains(resolved@, rows@, k));
        if expected.dom().contains(k) {
            assert(expected[k] == spec_lookup_value(resolved@, rows@, k));
        }
    }
    assert(result@ =~= expected);
    result
}

} // verus!
