//! The key-value store backing all per-guild and per-user
//! configuration and bookkeeping.  Rows are keyed by a scope
//! (guild or user namespace), a scope identifier and a key string;
//! the two namespaces never collide even when identifiers do.
//! A `set` whose value equals the stored one is suppressed: it
//! leaves the row, its `updated_at` stamp and the write counter
//! untouched.

use vstd::prelude::*;
use vstd::map::*;
use crate::text::str_eq;

verus! {

/// The namespace a row lives in.  Guild-scoped and user-scoped rows
/// are distinct even for equal identifier strings.
#[derive(Clone, Copy, PartialEq, Eq, Structural, Debug)]
pub enum Scope {
    Guild,
    User,
}

/// One stored row.
pub struct Row {
    pub scope: Scope,
    pub id: String,
    pub key: String,
    pub value: String,
    pub updated_at: i64,
}

/// The mathematical content of one row: its value and the time it
/// was last written.
pub ghost struct Rec {
    pub value: Seq<char>,
    pub updated_at: int,
}

/// The full logical key of a row.
pub type StoreKey = (Scope, Seq<char>, Seq<char>);

/// The mathematical state of the store: a finite map from logical
/// keys to records, and the count of writes that actually reached
/// storage.
pub ghost struct StoreView {
    pub entries: Map<StoreKey, Rec>,
    pub writes: int,
}

pub open spec fn key_of(r: Row) -> StoreKey {
    (r.scope, r.id@, r.key@)
}

pub open spec fn rec_of(r: Row) -> Rec {
    Rec { value: r.value@, updated_at: r.updated_at as int }
}

/// No two rows share a logical key.
pub open spec fn rows_distinct(rows: Seq<Row>) -> bool {
    forall|i: int, j: int|
        0 <= i < j < rows.len() ==> key_of(#[trigger] rows[i]) != key_of(#[trigger] rows[j])
}

/// The map denoted by a row sequence without duplicate keys.
pub open spec fn rows_entries(rows: Seq<Row>) -> Map<StoreKey, Rec> {
    Map::new(
        |k: StoreKey| exists|i: int| 0 <= i < rows.len() && key_of(#[trigger] rows[i]) == k,
        |k: StoreKey|
            rec_of(
                rows[choose|i: int| 0 <= i < rows.len() && key_of(#[trigger] rows[i]) == k],
            ),
    )
}

/// The record stored under a key, if any.
pub open spec fn spec_lookup(v: StoreView, scope: Scope, id: Seq<char>, key: Seq<char>) -> Option<
    Rec,
> {
    if v.entries.contains_key((scope, id, key)) {
        Some(v.entries[(scope, id, key)])
    } else {
        None
    }
}

/// The stored value under a key, if any.
pub open spec fn spec_value(v: StoreView, scope: Scope, id: Seq<char>, key: Seq<char>) -> Option<
    Seq<char>,
> {
    match spec_lookup(v, scope, id, key) {
        Some(rec) => Some(rec.value),
        None => None,
    }
}

/// The write counter after one more write reaches storage.
pub open spec fn spec_bump(w: int) -> int {
    if w < u64::MAX {
        w + 1
    } else {
        w
    }
}

/// The store after one `set`: the row holds the new value; the
/// write is suppressed — nothing at all changes — exactly when the
/// identical value was already stored; every other key is untouched.
pub open spec fn spec_set_state(
    pre: StoreView,
    scope: Scope,
    id: Seq<char>,
    key: Seq<char>,
    value: Seq<char>,
    now: int,
) -> StoreView {
    let k = (scope, id, key);
    if pre.entries.contains_key(k) && pre.entries[k].value == value {
        pre
    } else {
        StoreView {
            entries: pre.entries.insert(k, Rec { value: value, updated_at: now }),
            writes: spec_bump(pre.writes),
        }
    }
}

/// What `set` promises: the new state is exactly `spec_set_state` of
/// the old one.
pub open spec fn spec_set_post(
    pre: StoreView,
    post: StoreView,
    scope: Scope,
    id: Seq<char>,
    key: Seq<char>,
    value: Seq<char>,
    now: int,
) -> bool {
    post == spec_set_state(pre, scope, id, key, value, now)
}

/// What `delete` promises: the key is absent afterwards, the result
/// says whether a row existed, and every other key is untouched.
pub open spec fn spec_delete_post(
    pre: StoreView,
    post: StoreView,
    scope: Scope,
    id: Seq<char>,
    key: Seq<char>,
    existed: bool,
) -> bool {
    let k = (scope, id, key);
    &&& existed == pre.entries.contains_key(k)
    &&& post.entries == pre.entries.remove(k)
    &&& post.writes == pre.writes
}

/// Durable per-guild and per-user string mapping with
/// change-suppression on writes.
pub struct KeyValueStore {
    rows: Vec<Row>,
    write_count: u64,
}

impl View for KeyValueStore {
    type V = StoreView;

    closed spec fn view(&self) -> StoreView {
        StoreView { entries: rows_entries(self.rows@), writes: self.write_count as int }
    }
}

/// In a row sequence without duplicate keys, the denoted map holds
/// each row's record under that row's key.
proof fn lemma_entries_at(rows: Seq<Row>, i: int)
    requires
        rows_distinct(rows),
        0 <= i < rows.len(),
    ensures
        rows_entries(rows).contains_key(key_of(rows[i])),
        rows_entries(rows)[key_of(rows[i])] == rec_of(rows[i]),
{
    let k = key_of(rows[i]);
    assert(exists|j: int| 0 <= j < rows.len() && key_of(#[trigger] rows[j]) == k);
    let j = choose|j: int| 0 <= j < rows.len() && key_of(#[trigger] rows[j]) == k;
    if j < i {
        assert(key_of(rows[j]) != key_of(rows[i]));
    } else if i < j {
        assert(key_of(rows[i]) != key_of(rows[j]));
    }
}

impl KeyValueStore {
    /// Rows are pairwise distinct in their logical keys.
    pub closed spec fn wf(&self) -> bool {
        rows_distinct(self.rows@)
    }

    /// An empty store.
    pub fn new() -> (s: KeyValueStore)
        ensures
            s.wf(),
            s@.entries == Map::<StoreKey, Rec>::empty(),
            s@.writes == 0,
    {
        let s = KeyValueStore { rows: Vec::new(), write_count: 0 };
        proof {
            assert(s@.entries =~= Map::<StoreKey, Rec>::empty());
        }
        s
    }

    /// How many writes actually reached storage; suppressed `set`
    /// calls do not count.
    pub fn write_count(&self) -> (n: u64)
        ensures
            n == self@.writes,
    {
        self.write_count
    }

    /// The index of the row with the given logical key, if present.
    fn find(&self, scope: Scope, id: &str, key: &str) -> (r: Option<usize>)
        requires
            self.wf(),
        ensures
            r matches Some(i) ==> i < self.rows@.len() && key_of(self.rows@[i as int]) == (
            scope,
            id@,
            key@,
            ),
            r is None ==> forall|j: int|
                0 <= j < self.rows@.len() ==> key_of(#[trigger] self.rows@[j]) != (
                scope,
                id@,
                key@,
                ),
    {
        let n = self.rows.len();
        let mut i: usize = 0;
        while i < n
            invariant
                0 <= i <= n,
                n == self.rows@.len(),
                forall|j: int|
                    0 <= j < i ==> key_of(#[trigger] self.rows@[j]) != (scope, id@, key@),
            decreases n - i,
        {
            let row = &self.rows[i];
            if row.scope == scope && str_eq(row.id.as_str(), id) && str_eq(row.key.as_str(), key) {
                return Some(i);
            }
            i = i + 1;
        }
        None
    }

    /// Point lookup; `None` means "not configured".
    fn get_value(&self, scope: Scope, id: &str, key: &str) -> (r: Option<String>)
        requires
            self.wf(),
        ensures
            r.deep_view() == spec_value(self@, scope, id@, key@),
    {
        match self.find(scope, id, key) {
            Some(i) => {
                proof {
                    lemma_entries_at(self.rows@, i as int);
                }
                Some(self.rows[i].value.clone())
            },
            None => {
                proof {
                    assert(!self@.entries.contains_key((scope, id@, key@)));
                }
                None
            },
        }
    }

    /// Reads the current value and upserts only when the incoming
    /// value differs or the row is absent; an identical value leaves
    /// storage untouched.
    fn set_value(&mut self, scope: Scope, id: &str, key: &str, value: &str, now: i64)
        requires
            old(self).wf(),
        ensures
            final(self).wf(),
            spec_set_post(old(self)@, final(self)@, scope, id@, key@, value@, now as int),
    {
        let ghost pre_rows = self.rows@;
        let ghost k: StoreKey = (scope, id@, key@);
        match self.find(scope, id, key) {
            Some(i) => {
                proof {
                    lemma_entries_at(pre_rows, i as int);
                }
                if str_eq(self.rows[i].value.as_str(), value) {
                    // Value unchanged: suppress the write entirely.
                    return ;
                }
                let row = Row {
                    scope,
                    id: String::from_str(id),
                    key: String::from_str(key),
                    value: String::from_str(value),
                    updated_at: now,
                };
                self.rows[i] = row;
                self.write_count = self.write_count.saturating_add(1);
                proof {
                    let rows = self.rows@;
                    assert(rows =~= pre_rows.update(i as int, rows[i as int]));
                    assert forall|p: int, q: int| 0 <= p < q < rows.len() implies key_of(
                        #[trigger] rows[p],
                    ) != key_of(#[trigger] rows[q]) by {
                        assert(key_of(rows[p]) == key_of(pre_rows[p]));
                        assert(key_of(rows[q]) == key_of(pre_rows[q]));
                    }
                    let rec = Rec { value: value@, updated_at: now as int };
                    assert(key_of(rows[i as int]) == k);
                    assert_maps_equal!(rows_entries(rows), rows_entries(pre_rows).insert(k, rec), k2 => {
                        if k2 == k {
                            lemma_entries_at(rows, i as int);
                        } else {
                            if exists|j: int|
                                0 <= j < pre_rows.len() && key_of(#[trigger] pre_rows[j]) == k2 {
                                let j = choose|j: int|
                                    0 <= j < pre_rows.len() && key_of(
                                        #[trigger] pre_rows[j],
                                    ) == k2;
                                assert(key_of(rows[j]) == k2);
                                lemma_entries_at(rows, j);
                                lemma_entries_at(pre_rows, j);
                            }
                            if exists|j: int|
                                0 <= j < rows.len() && key_of(#[trigger] rows[j]) == k2 {
                                let j = choose|j: int|
                                    0 <= j < rows.len() && key_of(#[trigger] rows[j]) == k2;
                                assert(key_of(pre_rows[j]) == k2);
                                lemma_entries_at(rows, j);
                                lemma_entries_at(pre_rows, j);
                            }
                        }
                    });
                }
            },
            None => {
                let row = Row {
                    scope,
                    id: String::from_str(id),
                    key: String::from_str(key),
                    value: String::from_str(value),
                    updated_at: now,
                };
                self.rows.push(row);
                self.write_count = self.write_count.saturating_add(1);
                proof {
                    let rows = self.rows@;
                    let n = pre_rows.len() as int;
                    assert(key_of(rows[n]) == k);
                    assert forall|p: int, q: int| 0 <= p < q < rows.len() implies key_of(
                        #[trigger] rows[p],
                    ) != key_of(#[trigger] rows[q]) by {
                        assert(key_of(rows[p]) == key_of(pre_rows[p]));
                        if q < n {
                            assert(key_of(rows[q]) == key_of(pre_rows[q]));
                        }
                    }
                    let rec = Rec { value: value@, updated_at: now as int };
                    assert_maps_equal!(rows_entries(rows), rows_entries(pre_rows).insert(k, rec), k2 => {
                        if k2 == k {
                            lemma_entries_at(rows, n);
                        } else {
                            if exists|j: int|
                                0 <= j < pre_rows.len() && key_of(#[trigger] pre_rows[j]) == k2 {
                                let j = choose|j: int|
                                    0 <= j < pre_rows.len() && key_of(
                                        #[trigger] pre_rows[j],
                                    ) == k2;
                                assert(key_of(rows[j]) == k2);
                                lemma_entries_at(rows, j);
                                lemma_entries_at(pre_rows, j);
                            }
                            if exists|j: int|
                                0 <= j < rows.len() && key_of(#[trigger] rows[j]) == k2 {
                                let j = choose|j: int|
                                    0 <= j < rows.len() && key_of(#[trigger] rows[j]) == k2;
                                assert(j != n);
                                assert(key_of(pre_rows[j]) == k2);
                                lemma_entries_at(rows, j);
                                lemma_entries_at(pre_rows, j);
                            }
                        }
                    });
                }
            },
        }
    }

    /// Removes the row under the key; reports whether one existed.
    fn delete_value(&mut self, scope: Scope, id: &str, key: &str) -> (existed: bool)
        requires
            old(self).wf(),
        ensures
            final(self).wf(),
            spec_delete_post(old(self)@, final(self)@, scope, id@, key@, existed),
    {
        let ghost pre_rows = self.rows@;
        let ghost k: StoreKey = (scope, id@, key@);
        match self.find(scope, id, key) {
            Some(i) => {
                proof {
                    lemma_entries_at(pre_rows, i as int);
                }
                self.rows.swap_remove(i);
                proof {
                    let rows = self.rows@;
                    let n = pre_rows.len() as int;
                    assert(rows =~= pre_rows.update(i as int, pre_rows[n - 1]).drop_last());
                    assert forall|j: int| 0 <= j < rows.len() implies key_of(#[trigger] rows[j])
                        != k && rows[j] == pre_rows[(if j == i { n - 1 } else { j })] by {
                        if j == i {
                            assert(rows[j] == pre_rows[n - 1]);
                            if i < n - 1 {
                                assert(key_of(pre_rows[i as int]) != key_of(pre_rows[n - 1]));
                            }
                        } else {
                            assert(rows[j] == pre_rows[j]);
                            if j < i {
                                assert(key_of(pre_rows[j]) != key_of(pre_rows[i as int]));
                            } else {
                                assert(key_of(pre_rows[i as int]) != key_of(pre_rows[j]));
                            }
                        }
                    }
                    assert forall|p: int, q: int| 0 <= p < q < rows.len() implies key_of(
                        #[trigger] rows[p],
                    ) != key_of(#[trigger] rows[q]) by {
                        let p0 = if p == i {
                            n - 1
                        } else {
                            p
                        };
                        let q0 = if q == i {
                            n - 1
                        } else {
                            q
                        };
                        assert(rows[p] == pre_rows[p0]);
                        assert(rows[q] == pre_rows[q0]);
                        if p0 < q0 {
                            assert(key_of(pre_rows[p0]) != key_of(pre_rows[q0]));
                        } else {
                            assert(key_of(pre_rows[q0]) != key_of(pre_rows[p0]));
                        }
                    }
                    assert_maps_equal!(rows_entries(rows), rows_entries(pre_rows).remove(k), k2 => {
                        if k2 != k {
                            if exists|j: int|
                                0 <= j < pre_rows.len() && key_of(#[trigger] pre_rows[j]) == k2 {
                                let j = choose|j: int|
                                    0 <= j < pre_rows.len() && key_of(
                                        #[trigger] pre_rows[j],
                                    ) == k2;
                                assert(j != i);
                                let j2 = if j == n - 1 {
                                    i as int
                                } else {
                                    j
                                };
                                assert(rows[j2] == pre_rows[j]);
                                lemma_entries_at(rows, j2);
                                lemma_entries_at(pre_rows, j);
                            }
                            if exists|j: int|
                                0 <= j < rows.len() && key_of(#[trigger] rows[j]) == k2 {
                                let j = choose|j: int|
                                    0 <= j < rows.len() && key_of(#[trigger] rows[j]) == k2;
                                let j0 = if j == i {
                                    n - 1
                                } else {
                                    j
                                };
                                assert(key_of(pre_rows[j0]) == k2);
                                lemma_entries_at(rows, j);
                                lemma_entries_at(pre_rows, j0);
                            }
                        }
                    });
                }
                true
            },
            None => {
                proof {
                    assert(!rows_entries(pre_rows).contains_key(k));
                    assert(rows_entries(pre_rows) =~= rows_entries(pre_rows).remove(k));
                }
                false
            },
        }
    }

    /// All (key, value) pairs stored under a scope identifier, in
    /// unspecified order and without duplicate keys.
    fn get_all_values(&self, scope: Scope, id: &str) -> (r: Vec<(String, String)>)
        requires
            self.wf(),
        ensures
            forall|p: int|
                0 <= p < r@.len() ==> spec_value(self@, scope, id@, (#[trigger] r@[p]).0@)
                    == Some(r@[p].1@),
            forall|k: StoreKey|
                #[trigger] self@.entries.contains_key(k) && k.0 == scope && k.1 == id@
                    ==> exists|p: int| 0 <= p < r@.len() && (#[trigger] r@[p]).0@ == k.2,
            forall|p: int, q: int| 0 <= p < q < r@.len() ==> (#[trigger] r@[p]).0@ != (
            #[trigger] r@[q]).0@,
    {
        let n = self.rows.len();
        let mut out: Vec<(String, String)> = Vec::new();
        let mut i: usize = 0;
        while i < n
            invariant
                0 <= i <= n,
                n == self.rows@.len(),
                self.wf(),
                forall|p: int|
                    0 <= p < out@.len() ==> exists|j: int|
                        0 <= j < i && key_of(#[trigger] self.rows@[j]) == (
                        scope,
                        id@,
                        (#[trigger] out@[p]).0@,
                        ) && self.rows@[j].value@ == out@[p].1@,
                forall|j: int|
                    0 <= j < i && key_of(#[trigger] self.rows@[j]).0 == scope && key_of(
                        self.rows@[j],
                    ).1 == id@ ==> exists|p: int|
                        0 <= p < out@.len() && (#[trigger] out@[p]).0@ == self.rows@[j].key@,
                forall|p: int, q: int|
                    0 <= p < q < out@.len() ==> (#[trigger] out@[p]).0@ != (#[trigger] out@[q]).0@,
            decreases n - i,
        {
            let row = &self.rows[i];
            if row.scope == scope && str_eq(row.id.as_str(), id) {
                let ghost out_pre = out@;
                out.push((row.key.clone(), row.value.clone()));
                proof {
                    let p = out@.len() - 1;
                    assert(out@[p].0@ == self.rows@[i as int].key@);
                    assert(key_of(self.rows@[i as int]) == (scope, id@, out@[p].0@));
                    assert forall|q: int| 0 <= q < p implies (#[trigger] out@[q]).0@ != out@[p].0@
                        by {
                        let j = choose|j: int|
                            0 <= j < i && key_of(#[trigger] self.rows@[j]) == (
                            scope,
                            id@,
                            out_pre[q].0@,
                            ) && self.rows@[j].value@ == out_pre[q].1@;
                        assert(out@[q] == out_pre[q]);
                        assert(key_of(self.rows@[j]) != key_of(self.rows@[i as int]));
                    }
                    assert forall|j: int|
                        0 <= j < i + 1 && key_of(#[trigger] self.rows@[j]).0 == scope && key_of(
                            self.rows@[j],
                        ).1 == id@ implies exists|q: int|
                        0 <= q < out@.len() && (#[trigger] out@[q]).0@ == self.rows@[j].key@ by {
                        if j == i {
                            assert((out@[p]).0@ == self.rows@[j].key@);
                        } else {
                            let q = choose|q: int|
                                0 <= q < out_pre.len() && (#[trigger] out_pre[q]).0@
                                    == self.rows@[j].key@;
                            assert((out@[q]).0@ == self.rows@[j].key@);
                        }
                    }
                }
            }
            i = i + 1;
        }
        proof {
            assert forall|p: int| 0 <= p < out@.len() implies spec_value(
                self@,
                scope,
                id@,
                (#[trigger] out@[p]).0@,
            ) == Some(out@[p].1@) by {
                let j = choose|j: int|
                    0 <= j < n && key_of(#[trigger] self.rows@[j]) == (scope, id@, out@[p].0@)
                        && self.rows@[j].value@ == out@[p].1@;
                lemma_entries_at(self.rows@, j);
            }
            assert forall|k: StoreKey|
                #[trigger] self@.entries.contains_key(k) && k.0 == scope && k.1 == id@ implies
                exists|p: int| 0 <= p < out@.len() && (#[trigger] out@[p]).0@ == k.2 by {
                let j = choose|j: int| 0 <= j < n && key_of(#[trigger] self.rows@[j]) == k;
                assert(key_of(self.rows@[j]).0 == scope && key_of(self.rows@[j]).1 == id@);
            }
        }
        out
    }

    // Guild-scoped operations.

    /// Set a key-value pair for a specific guild.
    pub fn set_guild_value(&mut self, guild_id: &str, key: &str, value: &str, now: i64)
        requires
            old(self).wf(),
        ensures
            final(self).wf(),
            spec_set_post(
                old(self)@,
                final(self)@,
                Scope::Guild,
                guild_id@,
                key@,
                value@,
                now as int,
            ),
    {
        self.set_value(Scope::Guild, guild_id, key, value, now)
    }

    /// Get a value for a specific guild and key.
    pub fn get_guild_value(&self, guild_id: &str, key: &str) -> (r: Option<String>)
        requires
            self.wf(),
        ensures
            r.deep_view() == spec_value(self@, Scope::Guild, guild_id@, key@),
    {
        self.get_value(Scope::Guild, guild_id, key)
    }

    /// Delete a key-value pair for a specific guild.
    pub fn delete_guild_value(&mut self, guild_id: &str, key: &str) -> (existed: bool)
        requires
            old(self).wf(),
        ensures
            final(self).wf(),
            spec_delete_post(old(self)@, final(self)@, Scope::Guild, guild_id@, key@, existed),
    {
        self.delete_value(Scope::Guild, guild_id, key)
    }

    /// All key-value pairs stored for a specific guild.
    pub fn get_all_guild_values(&self, guild_id: &str) -> (r: Vec<(String, String)>)
        requires
            self.wf(),
        ensures
            forall|p: int|
                0 <= p < r@.len() ==> spec_value(self@, Scope::Guild, guild_id@, (
                #[trigger] r@[p]).0@) == Some(r@[p].1@),
            forall|k: StoreKey|
                #[trigger] self@.entries.contains_key(k) && k.0 == Scope::Guild && k.1 == guild_id@
                    ==> exists|p: int| 0 <= p < r@.len() && (#[trigger] r@[p]).0@ == k.2,
            forall|p: int, q: int| 0 <= p < q < r@.len() ==> (#[trigger] r@[p]).0@ != (
            #[trigger] r@[q]).0@,
    {
        self.get_all_values(Scope::Guild, guild_id)
    }

    // User-scoped operations.

    /// Set a key-value pair for a specific user.
    pub fn set_user_value(&mut self, user_id: &str, key: &str, value: &str, now: i64)
        requires
            old(self).wf(),
        ensures
            final(self).wf(),
            spec_set_post(
                old(self)@,
                final(self)@,
                Scope::User,
                user_id@,
                key@,
                value@,
                now as int,
            ),
    {
        self.set_value(Scope::User, user_id, key, value, now)
    }

    /// Get a value for a specific user and key.
    pub fn get_user_value(&self, user_id: &str, key: &str) -> (r: Option<String>)
        requires
            self.wf(),
        ensures
            r.deep_view() == spec_value(self@, Scope::User, user_id@, key@),
    {
        self.get_value(Scope::User, user_id, key)
    }

    /// Delete a key-value pair for a specific user.
    pub fn delete_user_value(&mut self, user_id: &str, key: &str) -> (existed: bool)
        requires
            old(self).wf(),
        ensures
            final(self).wf(),
            spec_delete_post(old(self)@, final(self)@, Scope::User, user_id@, key@, existed),
    {
        self.delete_value(Scope::User, user_id, key)
    }

    /// All key-value pairs stored for a specific user.
    pub fn get_all_user_values(&self, user_id: &str) -> (r: Vec<(String, String)>)
        requires
            self.wf(),
        ensures
            forall|p: int|
                0 <= p < r@.len() ==> spec_value(self@, Scope::User, user_id@, (
                #[trigger] r@[p]).0@) == Some(r@[p].1@),
            forall|k: StoreKey|
                #[trigger] self@.entries.contains_key(k) && k.0 == Scope::User && k.1 == user_id@
                    ==> exists|p: int| 0 <= p < r@.len() && (#[trigger] r@[p]).0@ == k.2,
            forall|p: int, q: int| 0 <= p < q < r@.len() ==> (#[trigger] r@[p]).0@ != (
            #[trigger] r@[q]).0@,
    {
        self.get_all_values(Scope::User, user_id)
    }

    /// Parses a stored identifier string as a nonzero snowflake.
    pub fn to_snowflake(&self, text: &str) -> (r: Option<u64>)
        ensures
            r is Some <==> crate::text::spec_parses_as_u64(text@) && crate::text::spec_dec_value(
                crate::text::spec_digits_of(text@),
            ) != 0,
            r matches Some(v) ==> v == crate::text::spec_dec_value(
                crate::text::spec_digits_of(text@),
            ) && v != 0,
    {
        crate::tools::to_snowflake(text)
    }
}

// ---------------------------------------------------------------------------
// Laws of the store
// ---------------------------------------------------------------------------

/// Law: a `set` followed by a `get` of the same (scope, id, key)
/// returns the value just stored.
pub proof fn lemma_set_then_get(
    pre: StoreView,
    post: StoreView,
    scope: Scope,
    id: Seq<char>,
    key: Seq<char>,
    value: Seq<char>,
    now: int,
)
    requires
        spec_set_post(pre, post, scope, id, key, value, now),
    ensures
        spec_value(post, scope, id, key) == Some(value),
{
}

/// Law: setting the identical value twice refreshes `updated_at` at
/// most once — the second call changes nothing, the write counter
/// included.
pub proof fn lemma_set_twice_idempotent(
    s0: StoreView,
    s1: StoreView,
    s2: StoreView,
    scope: Scope,
    id: Seq<char>,
    key: Seq<char>,
    value: Seq<char>,
    now1: int,
    now2: int,
)
    requires
        spec_set_post(s0, s1, scope, id, key, value, now1),
        spec_set_post(s1, s2, scope, id, key, value, now2),
    ensures
        s2 == s1,
{
    lemma_set_then_get(s0, s1, scope, id, key, value, now1);
}

/// Law: deleting an absent key reports `false` and changes no entry;
/// deleting a present key reports `true`, and a `get` afterwards
/// finds nothing.
pub proof fn lemma_delete_then_get(
    pre: StoreView,
    post: StoreView,
    scope: Scope,
    id: Seq<char>,
    key: Seq<char>,
    existed: bool,
)
    requires
        spec_delete_post(pre, post, scope, id, key, existed),
    ensures
        existed == (spec_value(pre, scope, id, key) is Some),
        spec_value(post, scope, id, key) is None,
        !existed ==> post.entries =~= pre.entries,
{
    if !existed {
        assert(post.entries =~= pre.entries);
    }
}

/// Law: guild-scoped and user-scoped rows never collide.  A write
/// under one scope is invisible to a `get` with the same literal
/// identifier and key under the other scope.
pub proof fn lemma_scopes_do_not_collide(
    pre: StoreView,
    post: StoreView,
    written: Scope,
    observed: Scope,
    id: Seq<char>,
    key: Seq<char>,
    value: Seq<char>,
    now: int,
)
    requires
        spec_set_post(pre, post, written, id, key, value, now),
        written != observed,
    ensures
        spec_value(post, observed, id, key) == spec_value(pre, observed, id, key),
{
}

} // verus!
