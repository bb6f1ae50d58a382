//! Rows in a vector, seen as a map from their keys.

use vstd::prelude::*;

verus! {

/// Whether no key belongs to two rows.
pub open spec fn distinct_keys<R, K>(rows: Seq<R>, key: spec_fn(R) -> K) -> bool {
    forall|i: int, j: int|
        0 <= i < j < rows.len() ==> key(#[trigger] rows[i]) != key(#[trigger] rows[j])
}

/// Whether some row has the key.
pub open spec fn has_key<R, K>(rows: Seq<R>, key: spec_fn(R) -> K, k: K) -> bool {
    exists|i: int| 0 <= i < rows.len() && key(#[trigger] rows[i]) == k
}

/// Where a row with the key stands.
pub open spec fn index_of<R, K>(rows: Seq<R>, key: spec_fn(R) -> K, k: K) -> int {
    choose|i: int| 0 <= i < rows.len() && key(#[trigger] rows[i]) == k
}

/// The rows as a map from their keys to what they hold.
pub open spec fn table<R, K, V>(
    rows: Seq<R>,
    key: spec_fn(R) -> K,
    content: spec_fn(R) -> V,
) -> Map<K, V> {
    Map::new(
        |k: K| has_key(rows, key, k),
        |k: K| content(rows[index_of(rows, key, k)]),
    )
}

/// What the map holds under the key of the row at `i`.
pub proof fn lemma_table_row<R, K, V>(
    rows: Seq<R>,
    key: spec_fn(R) -> K,
    content: spec_fn(R) -> V,
    i: int,
)
    requires
        distinct_keys(rows, key),
        0 <= i < rows.len(),
    ensures
        has_key(rows, key, key(rows[i])),
        table(rows, key, content).contains_key(key(rows[i])),
        table(rows, key, content)[key(rows[i])] == content(rows[i]),
{
    let k = index_of(rows, key, key(rows[i]));
    assert(has_key(rows, key, key(rows[i])));
    assert(k == i);
}

/// Replacing a row by one with the same key replaces what the map holds there.
pub proof fn lemma_table_update<R, K, V>(
    rows: Seq<R>,
    key: spec_fn(R) -> K,
    content: spec_fn(R) -> V,
    i: int,
    row: R,
)
    requires
        distinct_keys(rows, key),
        0 <= i < rows.len(),
        key(row) == key(rows[i]),
    ensures
        distinct_keys(rows.update(i, row), key),
        table(rows.update(i, row), key, content) == table(rows, key, content).insert(
            key(row),
            content(row),
        ),
{
    let after = rows.update(i, row);
    assert forall|a: int, b: int| 0 <= a < b < after.len() implies key(#[trigger] after[a]) != key(
        #[trigger] after[b],
    ) by {
        assert(key(after[a]) == key(rows[a]));
        assert(key(after[b]) == key(rows[b]));
    }
    assert forall|k: K| has_key(rows, key, k) == has_key(after, key, k) by {
        if has_key(rows, key, k) {
            let n = index_of(rows, key, k);
            assert(key(after[n]) == k);
        }
        if has_key(after, key, k) {
            let n = index_of(after, key, k);
            assert(key(rows[n]) == k);
        }
    }
    lemma_table_row(rows, key, content, i);
    assert forall|k: K| has_key(after, key, k) implies table(after, key, content)[k] == table(
        rows,
        key,
        content,
    ).insert(key(row), content(row))[k] by {
        let n = index_of(after, key, k);
        lemma_table_row(after, key, content, n);
        lemma_table_row(rows, key, content, n);
    }
    assert(table(after, key, content) =~= table(rows, key, content).insert(key(row), content(row)));
}

/// Adding a row with a new key adds it to the map.
pub proof fn lemma_table_push<R, K, V>(
    rows: Seq<R>,
    key: spec_fn(R) -> K,
    content: spec_fn(R) -> V,
    row: R,
)
    requires
        distinct_keys(rows, key),
        !has_key(rows, key, key(row)),
    ensures
        distinct_keys(rows.push(row), key),
        table(rows.push(row), key, content) == table(rows, key, content).insert(
            key(row),
            content(row),
        ),
{
    let after = rows.push(row);
    assert forall|a: int, b: int| 0 <= a < b < after.len() implies key(#[trigger] after[a]) != key(
        #[trigger] after[b],
    ) by {
        assert(key(rows[a]) != key(row));
        if b < rows.len() {
            assert(key(rows[a]) != key(rows[b]));
        }
    }
    assert forall|k: K| has_key(after, key, k) == (has_key(rows, key, k) || k == key(row)) by {
        if has_key(rows, key, k) {
            let n = index_of(rows, key, k);
            assert(key(after[n]) == k);
        }
        if k == key(row) {
            assert(key(after[rows.len() as int]) == k);
        }
        if has_key(after, key, k) {
            let n = index_of(after, key, k);
            if n < rows.len() {
                assert(key(rows[n]) == k);
            }
        }
    }
    assert forall|k: K| has_key(after, key, k) implies table(after, key, content)[k] == table(
        rows,
        key,
        content,
    ).insert(key(row), content(row))[k] by {
        let n = index_of(after, key, k);
        lemma_table_row(after, key, content, n);
        if n < rows.len() {
            lemma_table_row(rows, key, content, n);
        }
    }
    assert(table(after, key, content) =~= table(rows, key, content).insert(key(row), content(row)));
}

/// Taking a row out takes its key out of the map.
pub proof fn lemma_table_remove<R, K, V>(
    rows: Seq<R>,
    key: spec_fn(R) -> K,
    content: spec_fn(R) -> V,
    i: int,
)
    requires
        distinct_keys(rows, key),
        0 <= i < rows.len(),
    ensures
        distinct_keys(rows.remove(i), key),
        table(rows.remove(i), key, content) == table(rows, key, content).remove(key(rows[i])),
{
    let after = rows.remove(i);
    assert forall|a: int| 0 <= a < after.len() implies #[trigger] after[a] == rows[if a < i {
        a
    } else {
        a + 1
    }] by {}
    assert(distinct_keys(after, key));
    assert forall|k: K|
        has_key(after, key, k) == (has_key(rows, key, k) && k != key(rows[i])) by {
        if has_key(after, key, k) {
            let n = index_of(after, key, k);
            let m = if n < i {
                n
            } else {
                n + 1
            };
            assert(after[n] == rows[m]);
            assert(key(rows[m]) == k);
        }
        if has_key(rows, key, k) && k != key(rows[i]) {
            let m = index_of(rows, key, k);
            let n = if m < i {
                m
            } else {
                m - 1
            };
            assert(after[n] == rows[m]);
            assert(key(after[n]) == k);
        }
    }
    assert forall|k: K| has_key(after, key, k) implies table(after, key, content)[k] == table(
        rows,
        key,
        content,
    )[k] by {
        let n = index_of(after, key, k);
        lemma_table_row(after, key, content, n);
        let m = if n < i {
            n
        } else {
            n + 1
        };
        assert(after[n] == rows[m]);
        lemma_table_row(rows, key, content, m);
    }
    assert(table(after, key, content) =~= table(rows, key, content).remove(key(rows[i])));
}

} // verus!
