use vstd::prelude::*;
use crate::error::StoreError;
use crate::model::Relation;
use crate::value::{row_view, SqlValue, Value};

verus! {

/// One row of the junction table: `owner` is associated with `related`
/// under `relation`.
#[derive(Clone, Copy, Debug, PartialEq, Eq, Structural)]
pub struct Link {
    pub owner: i64,
    pub related: i64,
    pub relation: Relation,
}

/// A stored row and its key, the value of its first column.
#[derive(Debug)]
pub struct StoredRow {
    pub id: i64,
    pub values: Vec<SqlValue>,
}

/// A primary table: its name and its rows in ascending key order.
#[derive(Debug)]
pub struct Table {
    pub name: String,
    pub rows: Vec<StoredRow>,
}

/// An in-memory relational store: named primary tables, each keyed by an
/// integer identifier in its first column, and one junction table.
#[derive(Debug)]
pub struct Store {
    pub tables: Vec<Table>,
    pub links: Vec<Link>,
}

/// A row as its key and its values.
pub open spec fn stored_view(r: StoredRow) -> (i64, Seq<Value>) {
    (r.id, row_view(r.values@))
}

pub open spec fn rows_view(rows: Seq<StoredRow>) -> Seq<(i64, Seq<Value>)> {
    rows.map_values(|r: StoredRow| stored_view(r))
}

/// Keys strictly ascend, and each row's first value is its key.
pub open spec fn rows_wf(rows: Seq<(i64, Seq<Value>)>) -> bool {
    &&& forall|i: int, j: int| 0 <= i < j < rows.len() ==> rows[i].0 < rows[j].0
    &&& forall|i: int|
        0 <= i < rows.len() ==> rows[i].1.len() > 0 && rows[i].1[0] == Value::Integer(rows[i].0)
}

/// The row stored under `id`, if any.
pub open spec fn row_with_key(rows: Seq<(i64, Seq<Value>)>, id: i64) -> Option<Seq<Value>> {
    if exists|i: int| 0 <= i < rows.len() && rows[i].0 == id {
        let i = choose|i: int| 0 <= i < rows.len() && rows[i].0 == id;
        Some(rows[i].1)
    } else {
        None
    }
}

impl Store {
    pub open spec fn has_table(&self, name: Seq<char>) -> bool {
        exists|i: int| 0 <= i < self.tables@.len() && self.tables@[i].name@ == name
    }

    pub open spec fn table_index(&self, name: Seq<char>) -> int {
        choose|i: int| 0 <= i < self.tables@.len() && self.tables@[i].name@ == name
    }

    /// The rows of the named table, in key order.
    pub open spec fn rows(&self, name: Seq<char>) -> Seq<(i64, Seq<Value>)> {
        rows_view(self.tables@[self.table_index(name)].rows@)
    }

    /// The row of the named table under `id`, if any.
    pub open spec fn row(&self, name: Seq<char>, id: i64) -> Option<Seq<Value>> {
        row_with_key(self.rows(name), id)
    }

    pub open spec fn wf(&self) -> bool {
        &&& forall|i: int, j: int|
            0 <= i < j < self.tables@.len() ==> self.tables@[i].name@ != self.tables@[j].name@
        &&& forall|i: int| 0 <= i < self.tables@.len() ==> rows_wf(rows_view(self.tables@[i].rows@))
        &&& self.links@.no_duplicates()
    }

    /// The same tables, each with the same rows, but for the named table.
    pub open spec fn same_tables_but(&self, other: &Store, name: Seq<char>) -> bool {
        &&& forall|n: Seq<char>| self.has_table(n) <==> other.has_table(n)
        &&& forall|n: Seq<char>| n != name && self.has_table(n) ==> self.rows(n) == other.rows(n)
    }

    /// An empty store: no tables and no links.
    pub fn new() -> (r: Store)
        ensures
            r.wf(),
            forall|n: Seq<char>| !r.has_table(n),
            r.links@.len() == 0,
    {
        Store { tables: Vec::new(), links: Vec::new() }
    }

    /// The index of the named table.
    pub fn find_table(&self, name: &String) -> (r: Option<usize>)
        requires
            self.wf(),
        ensures
            r is Some <==> self.has_table(name@),
            r is Some ==> r->Some_0 == self.table_index(name@),
    {
        let mut i: usize = 0;
        while i < self.tables.len()
            invariant
                self.wf(),
                i <= self.tables@.len(),
                forall|j: int| 0 <= j < i ==> self.tables@[j].name@ != name@,
            decreases self.tables@.len() - i,
        {
            if self.tables[i].name == *name {
                assert(self.tables@[i as int].name@ == name@);
                let ghost k = self.table_index(name@);
                assert(k == i);
                return Some(i);
            }
            i += 1;
        }
        None
    }

    /// Creates the named table, empty, unless it exists already.
    pub fn create_table(&mut self, name: &String)
        requires
            old(self).wf(),
        ensures
            final(self).wf(),
            final(self).has_table(name@),
            old(self).has_table(name@) ==> final(self).rows(name@) == old(self).rows(name@),
            !old(self).has_table(name@) ==> final(self).rows(name@).len() == 0,
            forall|n: Seq<char>| n != name@ ==> (final(self).has_table(n) <==> old(self).has_table(n)),
            forall|n: Seq<char>| n != name@ && old(self).has_table(n) ==> final(self).rows(n) == old(self).rows(n),
            final(self).links@ == old(self).links@,
    {
        match self.find_table(name) {
            Some(_) => {},
            None => {
                let ghost before = self.tables@;
                self.tables.push(Table { name: name.clone(), rows: Vec::new() });
                let ghost last = before.len() as int;
                assert(self.tables@[last].name@ == name@);
                assert forall|n: Seq<char>| n != name@ implies (self.has_table(n) <==> old(self).has_table(n)) by {
                    if self.has_table(n) {
                        let k = choose|k: int| 0 <= k < self.tables@.len() && self.tables@[k].name@ == n;
                        assert(k != last);
                        assert(before[k].name@ == n);
                    }
                    if old(self).has_table(n) {
                        let k = choose|k: int| 0 <= k < before.len() && before[k].name@ == n;
                        assert(self.tables@[k].name@ == n);
                    }
                };
                assert forall|n: Seq<char>| n != name@ && old(self).has_table(n) implies self.rows(n) == old(self).rows(n) by {
                    let k = old(self).table_index(n);
                    assert(self.tables@[k].name@ == n);
                    assert(self.table_index(n) == k);
                };
                assert(self.table_index(name@) == last);
            },
        }
    }

    /// The row of table `t` under `id`, or none.
    pub fn select_row(&self, t: usize, id: i64) -> (r: Option<&Vec<SqlValue>>)
        requires
            self.wf(),
            t < self.tables@.len(),
        ensures
            match r {
                Some(v) => row_with_key(rows_view(self.tables@[t as int].rows@), id) == Some(row_view(v@)),
                None => row_with_key(rows_view(self.tables@[t as int].rows@), id) is None,
            },
    {
        let rows = &self.tables[t].rows;
        let ghost rv = rows_view(rows@);
        let mut i: usize = 0;
        while i < rows.len()
            invariant
                self.wf(),
                t < self.tables@.len(),
                rows@ == self.tables@[t as int].rows@,
                i <= rows@.len(),
                rv == rows_view(rows@),
                forall|j: int| 0 <= j < i ==> rv[j].0 != id,
            decreases rows@.len() - i,
        {
            if rows[i].id == id {
                assert(rv[i as int].0 == id);
                proof {
                    let k = choose|k: int| 0 <= k < rv.len() && rv[k].0 == id;
                    assert(rows_wf(rv));
                    assert(rv[k].0 == rv[i as int].0);
                    assert(k == i);
                }
                return Some(&rows[i].values);
            }
            i += 1;
        }
        None
    }

    /// Writes a row into table `t`. Its first value is the key: a null key
    /// takes the next identifier, one above the largest key (1 in an empty
    /// table); an integer key replaces the row under that key, or adds it.
    /// Returns the key the row was written under.
    pub fn write_row(&mut self, t: usize, values: Vec<SqlValue>) -> (r: Result<i64, StoreError>)
        requires
            old(self).wf(),
            t < old(self).tables@.len(),
            values@.len() > 0,
        ensures
            final(self).wf(),
            final(self).links@ == old(self).links@,
            final(self).tables@.len() == old(self).tables@.len(),
            forall|i: int| 0 <= i < old(self).tables@.len() ==> final(self).tables@[i].name@ == old(self).tables@[i].name@,
            forall|i: int| 0 <= i < old(self).tables@.len() && i != t ==> final(self).tables@[i].rows@ == old(self).tables@[i].rows@,
            ({
                let old_rows = rows_view(old(self).tables@[t as int].rows@);
                let new_rows = rows_view(final(self).tables@[t as int].rows@);
                match r {
                    Ok(id) => {
                        &&& row_with_key(new_rows, id) == Some(row_view(values@).update(0, Value::Integer(id)))
                        &&& forall|k: i64| k != id ==> row_with_key(new_rows, k) == row_with_key(old_rows, k)
                        &&& (values@[0]@ is Integer ==> values@[0]@ == Value::Integer(id))
                        &&& (values@[0]@ is Null ==> forall|j: int| 0 <= j < old_rows.len() ==> old_rows[j].0 < id)
                        &&& (values@[0]@ is Null && old_rows.len() == 0 ==> id == 1)
                    },
                    Err(e) => {
                        &&& final(self).tables@ == old(self).tables@
                        &&& (e == StoreError::BadKey <==> values@[0]@ is Text)
                        &&& (e == StoreError::KeysExhausted <==> values@[0]@ is Null && old_rows.len() > 0
                            && old_rows[old_rows.len() - 1].0 == i64::MAX)
                        &&& (e == StoreError::BadKey || e == StoreError::KeysExhausted)
                    },
                }
            }),
            r is Err <==> (values@[0]@ is Text || (values@[0]@ is Null && rows_view(old(self).tables@[t as int].rows@).len() > 0
                && rows_view(old(self).tables@[t as int].rows@).last().0 == i64::MAX)),
    {
        let mut values = values;
        let n = self.tables[t].rows.len();
        let ghost old_rows = rows_view(self.tables@[t as int].rows@);
        let ghost vals = row_view(values@);
        assert(vals[0] == values@[0]@);
        let id: i64 = match &values[0] {
            SqlValue::Null => {
                if n == 0 {
                    1
                } else {
                    let last = self.tables[t].rows[n - 1].id;
                    if last == i64::MAX {
                        return Err(StoreError::KeysExhausted);
                    }
                    last + 1
                }
            },
            SqlValue::Integer(k) => *k,
            SqlValue::Text(_) => {
                return Err(StoreError::BadKey);
            },
        };
        proof {
            assert(rows_wf(old_rows));
            if vals[0] is Null && n > 0 {
                assert forall|j: int| 0 <= j < old_rows.len() implies old_rows[j].0 < id by {
                    if j < n - 1 {
                        assert(old_rows[j].0 < old_rows[n - 1].0);
                    }
                };
            }
        }
        let mut p: usize = 0;
        while p < n && self.tables[t].rows[p].id < id
            invariant
                self.wf(),
                t < self.tables@.len(),
                n == self.tables@[t as int].rows@.len(),
                old_rows == rows_view(self.tables@[t as int].rows@),
                p <= n,
                forall|j: int| 0 <= j < p ==> old_rows[j].0 < id,
            decreases n - p,
        {
            p += 1;
        }
        values.set(0, SqlValue::Integer(id));
        let ghost new_vals = row_view(values@);
        assert(new_vals =~= vals.update(0, Value::Integer(id)));
        proof {
            assert(rows_wf(old_rows));
        }
        if p < n && self.tables[t].rows[p].id == id {
            self.tables[t].rows.set(p, StoredRow { id, values });
            let ghost new_rows = rows_view(self.tables@[t as int].rows@);
            assert(new_rows =~= old_rows.update(p as int, (id, new_vals)));
            proof {
                assert(rows_wf(new_rows));
                lemma_key_at(new_rows, p as int);
                assert forall|k: i64| k != id implies row_with_key(new_rows, k) == row_with_key(old_rows, k) by {
                    if exists|i: int| 0 <= i < old_rows.len() && old_rows[i].0 == k {
                        let i = choose|i: int| 0 <= i < old_rows.len() && old_rows[i].0 == k;
                        lemma_key_at(old_rows, i);
                        lemma_key_at(new_rows, i);
                    } else {
                        assert forall|i: int| 0 <= i < new_rows.len() implies new_rows[i].0 != k by {
                            if i != p {
                                assert(new_rows[i] == old_rows[i]);
                            }
                        };
                    }
                };
            }
        } else {
            self.tables[t].rows.insert(p, StoredRow { id, values });
            let ghost new_rows = rows_view(self.tables@[t as int].rows@);
            assert(new_rows =~= old_rows.insert(p as int, (id, new_vals)));
            proof {
                assert forall|i: int, j: int| 0 <= i < j < new_rows.len() implies new_rows[i].0 < new_rows[j].0 by {
                    if j < p {
                    } else if j == p {
                    } else if i == p {
                        assert(new_rows[j] == old_rows[j - 1]);
                        if p < n {
                            assert(old_rows[p as int].0 > id);
                            if j - 1 > p {
                                assert(old_rows[p as int].0 < old_rows[j - 1].0);
                            }
                        }
                    } else if i < p {
                        assert(new_rows[j] == old_rows[j - 1]);
                    } else {
                        assert(new_rows[j] == old_rows[j - 1]);
                        assert(new_rows[i] == old_rows[i - 1]);
                    }
                };
                assert(rows_wf(new_rows));
                lemma_key_at(new_rows, p as int);
                assert forall|k: i64| k != id implies row_with_key(new_rows, k) == row_with_key(old_rows, k) by {
                    if exists|i: int| 0 <= i < old_rows.len() && old_rows[i].0 == k {
                        let i = choose|i: int| 0 <= i < old_rows.len() && old_rows[i].0 == k;
                        lemma_key_at(old_rows, i);
                        if i < p {
                            lemma_key_at(new_rows, i);
                        } else {
                            assert(new_rows[i + 1] == old_rows[i]);
                            lemma_key_at(new_rows, i + 1);
                        }
                    } else {
                        assert forall|i: int| 0 <= i < new_rows.len() implies new_rows[i].0 != k by {
                            if i < p {
                                assert(new_rows[i] == old_rows[i]);
                            } else if i > p {
                                assert(new_rows[i] == old_rows[i - 1]);
                            }
                        };
                    }
                };
            }
        }
        proof {
            assert forall|i: int| 0 <= i < self.tables@.len() && i != t implies rows_wf(rows_view(self.tables@[i].rows@)) by {
                assert(self.tables@[i] == old(self).tables@[i]);
            };
            assert forall|i: int, j: int| 0 <= i < j < self.tables@.len() implies self.tables@[i].name@ != self.tables@[j].name@ by {
                assert(self.tables@[i].name == old(self).tables@[i].name);
                assert(self.tables@[j].name == old(self).tables@[j].name);
            };
        }
        Ok(id)
    }
}

impl Store {
    /// The rows of table `t`, in ascending key order.
    pub fn rows_of(&self, t: usize) -> (r: &Vec<StoredRow>)
        requires
            t < self.tables@.len(),
        ensures
            r@ == self.tables@[t as int].rows@,
    {
        &self.tables[t].rows
    }

    /// Removes the row of table `t` under `id`; none there is no error.
    pub fn delete_row(&mut self, t: usize, id: i64)
        requires
            old(self).wf(),
            t < old(self).tables@.len(),
        ensures
            final(self).wf(),
            final(self).links@ == old(self).links@,
            final(self).tables@.len() == old(self).tables@.len(),
            forall|i: int| 0 <= i < old(self).tables@.len() ==> final(self).tables@[i].name@ == old(self).tables@[i].name@,
            forall|i: int| 0 <= i < old(self).tables@.len() && i != t ==> final(self).tables@[i].rows@ == old(self).tables@[i].rows@,
            row_with_key(rows_view(final(self).tables@[t as int].rows@), id) is None,
            forall|k: i64| k != id ==> row_with_key(rows_view(final(self).tables@[t as int].rows@), k)
                == row_with_key(rows_view(old(self).tables@[t as int].rows@), k),
    {
        let n = self.tables[t].rows.len();
        let ghost old_rows = rows_view(self.tables@[t as int].rows@);
        let mut p: usize = 0;
        while p < n && self.tables[t].rows[p].id != id
            invariant
                self.wf(),
                t < self.tables@.len(),
                n == self.tables@[t as int].rows@.len(),
                old_rows == rows_view(self.tables@[t as int].rows@),
                p <= n,
                forall|j: int| 0 <= j < p ==> old_rows[j].0 != id,
            decreases n - p,
        {
            p += 1;
        }
        proof {
            assert(rows_wf(old_rows));
        }
        if p < n {
            let _ = self.tables[t].rows.remove(p);
            let ghost new_rows = rows_view(self.tables@[t as int].rows@);
            assert(new_rows =~= old_rows.remove(p as int));
            proof {
                assert forall|i: int, j: int| 0 <= i < j < new_rows.len() implies new_rows[i].0 < new_rows[j].0 by {
                    if i < p && j >= p {
                        assert(new_rows[j] == old_rows[j + 1]);
                    } else if i >= p {
                        assert(new_rows[j] == old_rows[j + 1]);
                        assert(new_rows[i] == old_rows[i + 1]);
                    }
                };
                assert(rows_wf(new_rows));
                assert forall|i: int| 0 <= i < new_rows.len() implies new_rows[i].0 != id by {
                    if i < p {
                    } else {
                        assert(new_rows[i] == old_rows[i + 1]);
                        assert(old_rows[p as int].0 < old_rows[i + 1].0);
                    }
                };
                assert forall|k: i64| k != id implies row_with_key(new_rows, k) == row_with_key(old_rows, k) by {
                    if exists|i: int| 0 <= i < old_rows.len() && old_rows[i].0 == k {
                        let i = choose|i: int| 0 <= i < old_rows.len() && old_rows[i].0 == k;
                        lemma_key_at(old_rows, i);
                        if i < p {
                            lemma_key_at(new_rows, i);
                        } else {
                            assert(i != p);
                            assert(new_rows[i - 1] == old_rows[i]);
                            lemma_key_at(new_rows, i - 1);
                        }
                    } else {
                        assert forall|i: int| 0 <= i < new_rows.len() implies new_rows[i].0 != k by {
                            if i >= p {
                                assert(new_rows[i] == old_rows[i + 1]);
                            }
                        };
                    }
                };
                assert forall|i: int| 0 <= i < self.tables@.len() && i != t implies rows_wf(rows_view(self.tables@[i].rows@)) by {
                    assert(self.tables@[i] == old(self).tables@[i]);
                };
                assert forall|i: int, j: int| 0 <= i < j < self.tables@.len() implies self.tables@[i].name@ != self.tables@[j].name@ by {
                    assert(self.tables@[i].name == old(self).tables@[i].name);
                    assert(self.tables@[j].name == old(self).tables@[j].name);
                };
            }
        }
    }
}

/// In well-formed rows, the row at index `i` is the one under its key.
pub proof fn lemma_key_at(rows: Seq<(i64, Seq<Value>)>, i: int)
    requires
        rows_wf(rows),
        0 <= i < rows.len(),
    ensures
        row_with_key(rows, rows[i].0) == Some(rows[i].1),
{
    let k = choose|k: int| 0 <= k < rows.len() && rows[k].0 == rows[i].0;
    if k < i {
        assert(rows[k].0 < rows[i].0);
    } else if k > i {
        assert(rows[i].0 < rows[k].0);
    }
}

} // verus!
