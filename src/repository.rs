use vstd::prelude::*;
use crate::error::{Error, MappingError, StoreError};
use crate::junction::{lemma_related_of, link, links_match, related_of, sync_relation};
use crate::model::{Model, Relation};
use crate::store::{Link, Store};
use crate::value::{row_view, Value};

verus! {

/// The links of owners other than `owner`, and those under relations the
/// type does not declare, are the same in both link lists.
pub open spec fn others_kept<T: Model>(before: Seq<Link>, after: Seq<Link>, owner: i64) -> bool {
    forall|l: Link|
        !(l.owner == owner && T::declares(l.relation)) ==> (after.contains(l) <==> before.contains(l))
}

/// Creates the table of `T` unless it exists; its rows, if any, are kept.
pub fn create_table<T: Model>(store: &mut Store)
    requires
        old(store).wf(),
    ensures
        final(store).wf(),
        final(store).has_table(T::table()),
        old(store).has_table(T::table()) ==> final(store).rows(T::table()) == old(store).rows(T::table()),
        !old(store).has_table(T::table()) ==> final(store).rows(T::table()).len() == 0,
        forall|n: Seq<char>| n != T::table() ==> (final(store).has_table(n) <==> old(store).has_table(n)),
        forall|n: Seq<char>| n != T::table() && old(store).has_table(n) ==> final(store).rows(n) == old(store).rows(n),
        final(store).links@ == old(store).links@,
{
    let name = T::table_name();
    store.create_table(&name);
}

/// Makes the junction rows of `owner` match, for each relation the type
/// declares, the identifiers the record declares.
fn sync_declared<T: Model>(record: &T, owner: i64, store: &mut Store)
    requires
        old(store).wf(),
    ensures
        final(store).wf(),
        final(store).tables@ == old(store).tables@,
        forall|rel: Relation| T::declares(rel) ==> links_match(final(store).links@, owner, rel, record.related(rel)),
        others_kept::<T>(old(store).links@, final(store).links@, owner),
{
    let ghost l0 = store.links@;
    if let Some(ids) = record.related_ids(Relation::Proficiencies) {
        let _ = sync_relation(Some(owner), Relation::Proficiencies, &ids, store);
    }
    let ghost l1 = store.links@;
    if let Some(ids) = record.related_ids(Relation::Languages) {
        let _ = sync_relation(Some(owner), Relation::Languages, &ids, store);
    }
    proof {
        assert forall|rel: Relation| T::declares(rel) implies links_match(store.links@, owner, rel, record.related(rel)) by {
            if rel == Relation::Proficiencies {
                assert forall|x: i64| store.links@.contains(link(owner, rel, x)) <==> l1.contains(link(owner, rel, x)) by {
                    let l = link(owner, rel, x);
                    assert(!(l.owner == owner && l.relation == Relation::Languages));
                };
            }
        };
    }
}

/// Saves a record: a record without an identifier is inserted under the next
/// identifier, one with an identifier is written under it. Then the junction
/// rows of each relation the type declares are made to match the record.
/// Returns the identifier the record is stored under.
pub fn save<T: Model>(record: &T, store: &mut Store) -> (r: Result<i64, Error>)
    requires
        old(store).wf(),
    ensures
        final(store).wf(),
        !T::storable(record@) ==> r == Err::<i64, Error>(Error::Mapping(MappingError::OutOfRange)),
        T::storable(record@) && !old(store).has_table(T::table()) ==> r == Err::<i64, Error>(
            Error::Store(StoreError::NoSuchTable)),
        r is Err ==> final(store).tables@ == old(store).tables@ && final(store).links@ == old(store).links@,
        T::storable(record@) && old(store).has_table(T::table()) ==> (r is Err <==> (T::key(record@) is None
            && old(store).rows(T::table()).len() > 0 && old(store).rows(T::table()).last().0 == i64::MAX)),
        r is Err && T::storable(record@) && old(store).has_table(T::table()) ==> r == Err::<i64, Error>(
            Error::Store(StoreError::KeysExhausted)),
        match r {
            Ok(id) => {
                &&& final(store).row(T::table(), id) == Some(T::encode(T::with_key(record@, id)))
                &&& (T::key(record@) is Some ==> id == T::key(record@)->Some_0)
                &&& (T::key(record@) is None ==> forall|j: int|
                    0 <= j < old(store).rows(T::table()).len() ==> old(store).rows(T::table())[j].0 < id)
                &&& forall|k: i64| k != id ==> final(store).row(T::table(), k) == old(store).row(T::table(), k)
                &&& final(store).same_tables_but(old(store), T::table())
                &&& forall|rel: Relation| T::declares(rel) ==> links_match(final(store).links@, id, rel, record.related(rel))
                &&& others_kept::<T>(old(store).links@, final(store).links@, id)
            },
            Err(_) => true,
        },
{
    if !record.is_storable() {
        return Err(Error::Mapping(MappingError::OutOfRange));
    }
    let name = T::table_name();
    let t = match store.find_table(&name) {
        None => {
            return Err(Error::Store(StoreError::NoSuchTable));
        },
        Some(t) => t,
    };
    let params = record.bound_parameters();
    proof {
        T::lemma_round_trip(record@);
        assert(row_view(params@)[0] == params@[0]@);
    }
    let ghost old_store_tables = store.tables@;
    let id = match store.write_row(t, params) {
        Ok(id) => id,
        Err(e) => {
            return Err(Error::Store(e));
        },
    };
    proof {
        T::lemma_with_key(record@, id);
        let ti = store.table_index(T::table());
        assert(ti == t as int);
        assert forall|n: Seq<char>| store.has_table(n) <==> old(store).has_table(n) by {
            if store.has_table(n) {
                let k = choose|k: int| 0 <= k < store.tables@.len() && store.tables@[k].name@ == n;
                assert(old(store).tables@[k].name@ == n);
            }
            if old(store).has_table(n) {
                let k = choose|k: int| 0 <= k < old(store).tables@.len() && old(store).tables@[k].name@ == n;
                assert(store.tables@[k].name@ == n);
            }
        };
        assert forall|n: Seq<char>| n != T::table() && store.has_table(n) implies store.rows(n) == old(store).rows(n) by {
            let k = store.table_index(n);
            assert(old(store).tables@[k].name@ == n);
            assert(old(store).table_index(n) == k);
        };
    }
    sync_declared(record, id, store);
    proof {
        assert forall|n: Seq<char>| store.has_table(n) <==> old(store).has_table(n) by {
            if store.has_table(n) {
                let k = choose|k: int| 0 <= k < store.tables@.len() && store.tables@[k].name@ == n;
                assert(old(store).tables@[k].name@ == n);
            }
            if old(store).has_table(n) {
                let k = choose|k: int| 0 <= k < old(store).tables@.len() && old(store).tables@[k].name@ == n;
                assert(store.tables@[k].name@ == n);
            }
        };
    }
    Ok(id)
}

/// The record stored under `id`, or none when no row has that identifier.
pub fn fetch_by_id<T: Model>(id: i64, store: &Store) -> (r: Result<Option<T>, Error>)
    requires
        store.wf(),
    ensures
        !store.has_table(T::table()) ==> r == Err::<Option<T>, Error>(Error::Store(StoreError::NoSuchTable)),
        store.has_table(T::table()) ==> match store.row(T::table(), id) {
            None => r is Ok && r->Ok_0 is None,
            Some(row) => match T::decode(row) {
                Ok(v) => r is Ok && r->Ok_0 is Some && r->Ok_0->Some_0@ == v,
                Err(e) => r == Err::<Option<T>, Error>(Error::Mapping(e)),
            },
        },
{
    let name = T::table_name();
    let t = match store.find_table(&name) {
        None => {
            return Err(Error::Store(StoreError::NoSuchTable));
        },
        Some(t) => t,
    };
    match store.select_row(t, id) {
        None => Ok(None),
        Some(row) => match T::from_row(row) {
            Ok(x) => Ok(Some(x)),
            Err(e) => Err(Error::Mapping(e)),
        },
    }
}

/// The index of the first row that does not decode, if any.
pub open spec fn first_bad_row<T: Model>(rows: Seq<(i64, Seq<Value>)>, i: int) -> bool {
    &&& 0 <= i < rows.len()
    &&& T::decode(rows[i].1) is Err
    &&& forall|j: int| 0 <= j < i ==> T::decode(rows[j].1) is Ok
}

/// Every record of `T`, in ascending identifier order. A single row that does
/// not decode fails the whole call with that row's error: the first such row
/// decides it.
pub fn fetch_all<T: Model>(store: &Store) -> (r: Result<Vec<T>, Error>)
    requires
        store.wf(),
    ensures
        !store.has_table(T::table()) ==> r == Err::<Vec<T>, Error>(Error::Store(StoreError::NoSuchTable)),
        store.has_table(T::table()) ==> {
            let rows = store.rows(T::table());
            &&& (r is Ok <==> forall|i: int| 0 <= i < rows.len() ==> T::decode(rows[i].1) is Ok)
            &&& (r is Ok ==> r->Ok_0@.len() == rows.len() && forall|i: int|
                0 <= i < rows.len() ==> T::decode(rows[i].1) == Ok::<T::V, MappingError>(r->Ok_0@[i]@))
            &&& (r is Err ==> exists|i: int| first_bad_row::<T>(rows, i)
                && r == Err::<Vec<T>, Error>(Error::Mapping(T::decode(rows[i].1)->Err_0)))
        },
{
    let name = T::table_name();
    let t = match store.find_table(&name) {
        None => {
            return Err(Error::Store(StoreError::NoSuchTable));
        },
        Some(t) => t,
    };
    let rows = store.rows_of(t);
    let ghost rv = store.rows(T::table());
    assert(rv == crate::store::rows_view(rows@));
    let mut out: Vec<T> = Vec::new();
    let mut i: usize = 0;
    while i < rows.len()
        invariant
            store.has_table(T::table()),
            rv == store.rows(T::table()),
            i <= rows@.len(),
            rv == crate::store::rows_view(rows@),
            out@.len() == i,
            forall|j: int| 0 <= j < i ==> T::decode(rv[j].1) == Ok::<T::V, MappingError>(out@[j]@),
        decreases rows@.len() - i,
    {
        match T::from_row(&rows[i].values) {
            Ok(x) => {
                assert(rv[i as int].1 == row_view(rows@[i as int].values@));
                out.push(x);
            },
            Err(e) => {
                assert(rv[i as int].1 == row_view(rows@[i as int].values@));
                assert(first_bad_row::<T>(rv, i as int));
                return Err(Error::Mapping(e));
            },
        }
        i += 1;
    }
    Ok(out)
}

/// Deletes the row of `T` under `id` and, for each relation the type
/// declares, every junction row that `id` owns. A missing row is no error.
pub fn delete<T: Model>(id: i64, store: &mut Store) -> (r: Result<(), Error>)
    requires
        old(store).wf(),
    ensures
        final(store).wf(),
        !old(store).has_table(T::table()) ==> r == Err::<(), Error>(Error::Store(StoreError::NoSuchTable))
            && final(store).tables@ == old(store).tables@ && final(store).links@ == old(store).links@,
        old(store).has_table(T::table()) ==> {
            &&& r is Ok
            &&& final(store).row(T::table(), id) is None
            &&& forall|k: i64| k != id ==> final(store).row(T::table(), k) == old(store).row(T::table(), k)
            &&& final(store).same_tables_but(old(store), T::table())
            &&& forall|rel: Relation, x: i64| T::declares(rel) ==> !final(store).links@.contains(link(id, rel, x))
            &&& others_kept::<T>(old(store).links@, final(store).links@, id)
        },
{
    let name = T::table_name();
    let t = match store.find_table(&name) {
        None => {
            return Err(Error::Store(StoreError::NoSuchTable));
        },
        Some(t) => t,
    };
    store.delete_row(t, id);
    proof {
        let ti = store.table_index(T::table());
        assert(ti == t as int);
        assert forall|n: Seq<char>| store.has_table(n) <==> old(store).has_table(n) by {
            if store.has_table(n) {
                let k = choose|k: int| 0 <= k < store.tables@.len() && store.tables@[k].name@ == n;
                assert(old(store).tables@[k].name@ == n);
            }
            if old(store).has_table(n) {
                let k = choose|k: int| 0 <= k < old(store).tables@.len() && old(store).tables@[k].name@ == n;
                assert(store.tables@[k].name@ == n);
            }
        };
        assert forall|n: Seq<char>| n != T::table() && store.has_table(n) implies store.rows(n) == old(store).rows(n) by {
            let k = store.table_index(n);
            assert(old(store).tables@[k].name@ == n);
            assert(old(store).table_index(n) == k);
        };
    }
    let ghost mid = store.tables@;
    let none: Vec<i64> = Vec::new();
    if T::declares_relation(Relation::Proficiencies) {
        let _ = sync_relation(Some(id), Relation::Proficiencies, &none, store);
    }
    let ghost l1 = store.links@;
    if T::declares_relation(Relation::Languages) {
        let _ = sync_relation(Some(id), Relation::Languages, &none, store);
    }
    proof {
        assert forall|rel: Relation, x: i64| T::declares(rel) implies !store.links@.contains(link(id, rel, x)) by {
            assert(!none@.contains(x));
            if rel == Relation::Proficiencies {
                let l = link(id, rel, x);
                assert(!(l.owner == id && l.relation == Relation::Languages));
            }
        };
    }
    Ok(())
}

/// A record saved under `id` is fetched back as the same record in every
/// field, now carrying the identifier `id`.
pub proof fn lemma_saved_record_fetches_back<T: Model>(store: &Store, v: T::V, id: i64)
    requires
        T::storable(v),
        store.row(T::table(), id) == Some(T::encode(T::with_key(v, id))),
    ensures
        T::decode(store.row(T::table(), id)->Some_0) == Ok::<T::V, MappingError>(T::with_key(v, id)),
{
    T::lemma_with_key(v, id);
    T::lemma_round_trip(T::with_key(v, id));
}

/// Once an owner has no links under a relation, as after `delete`,
/// resolving that relation for it gives nothing.
pub proof fn lemma_unlinked_owner_resolves_empty(links: Seq<Link>, owner: i64, rel: Relation)
    requires
        forall|x: i64| !links.contains(link(owner, rel, x)),
    ensures
        related_of(links, owner, rel).len() == 0,
{
    lemma_related_of(links, owner, rel);
    let r = related_of(links, owner, rel);
    if r.len() > 0 {
        assert(r.contains(r[0]));
    }
}

} // verus!
