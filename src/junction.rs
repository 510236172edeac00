use vstd::prelude::*;
use crate::error::MappingError;
use crate::model::Relation;
use crate::store::{Link, Store};

verus! {

/// The link that associates `owner` with `related` under `rel`.
pub open spec fn link(owner: i64, rel: Relation, related: i64) -> Link {
    Link { owner, related, relation: rel }
}

/// The related identifiers of `owner` under `rel`, in the order the links
/// were made.
pub open spec fn related_of(links: Seq<Link>, owner: i64, rel: Relation) -> Seq<i64>
    decreases links.len(),
{
    if links.len() == 0 {
        Seq::empty()
    } else {
        let prev = related_of(links.drop_last(), owner, rel);
        let l = links.last();
        if l.owner == owner && l.relation == rel {
            prev.push(l.related)
        } else {
            prev
        }
    }
}

/// The related identifiers are exactly those that a link names.
pub proof fn lemma_related_of(links: Seq<Link>, owner: i64, rel: Relation)
    ensures
        forall|x: i64| related_of(links, owner, rel).contains(x) <==> links.contains(link(owner, rel, x)),
        links.no_duplicates() ==> related_of(links, owner, rel).no_duplicates(),
    decreases links.len(),
{
    if links.len() > 0 {
        let init = links.drop_last();
        lemma_related_of(init, owner, rel);
        let prev = related_of(init, owner, rel);
        let l = links.last();
        assert(links =~= init.push(l));
        assert forall|x: i64| related_of(links, owner, rel).contains(x) <==> links.contains(link(owner, rel, x)) by {
            if links.contains(link(owner, rel, x)) {
                let i = choose|i: int| 0 <= i < links.len() && links[i] == link(owner, rel, x);
                if i < links.len() - 1 {
                    assert(init[i] == links[i]);
                    assert(init.contains(link(owner, rel, x)));
                }
            }
            if init.contains(link(owner, rel, x)) {
                let i = choose|i: int| 0 <= i < init.len() && init[i] == link(owner, rel, x);
                assert(links[i] == init[i]);
            }
            if related_of(links, owner, rel).contains(x) && l.owner == owner && l.relation == rel {
                let i = choose|i: int| 0 <= i < prev.len() + 1 && prev.push(l.related)[i] == x;
                if i < prev.len() {
                    assert(prev[i] == x);
                }
            }
            if prev.contains(x) && l.owner == owner && l.relation == rel {
                let i = choose|i: int| 0 <= i < prev.len() && prev[i] == x;
                assert(prev.push(l.related)[i] == x);
            }
            if l.owner == owner && l.relation == rel && l.related == x {
                assert(prev.push(l.related)[prev.len() as int] == x);
                assert(links[links.len() - 1] == l);
            }
        };
        if links.no_duplicates() {
            assert forall|i: int, j: int| 0 <= i < j < init.len() implies init[i] != init[j] by {
                assert(init[i] == links[i] && init[j] == links[j]);
            };
            if l.owner == owner && l.relation == rel {
                assert(!init.contains(l)) by {
                    if init.contains(l) {
                        let i = choose|i: int| 0 <= i < init.len() && init[i] == l;
                        assert(links[i] == links[links.len() - 1]);
                    }
                };
                assert(!prev.contains(l.related)) by {
                    assert(l == link(owner, rel, l.related));
                };
                let s = prev.push(l.related);
                assert forall|i: int, j: int| 0 <= i < j < s.len() implies s[i] != s[j] by {
                    if j == prev.len() {
                        assert(prev[i] == s[i]);
                    }
                };
            }
        }
    }
}

/// The identifiers associated with `owner` under `rel`, in the order the
/// associations were made.
pub fn resolve_relation(owner: i64, rel: Relation, store: &Store) -> (r: Vec<i64>)
    ensures
        r@ == related_of(store.links@, owner, rel),
{
    let mut out: Vec<i64> = Vec::new();
    let mut i: usize = 0;
    while i < store.links.len()
        invariant
            i <= store.links@.len(),
            out@ == related_of(store.links@.take(i as int), owner, rel),
        decreases store.links@.len() - i,
    {
        let l = store.links[i];
        if l.owner == owner && l.relation == rel {
            out.push(l.related);
        }
        assert(store.links@.take(i as int + 1).drop_last() =~= store.links@.take(i as int));
        i += 1;
    }
    assert(store.links@.take(i as int) =~= store.links@);
    out
}

fn contains_id(v: &Vec<i64>, x: i64) -> (r: bool)
    ensures
        r == v@.contains(x),
{
    let mut i: usize = 0;
    while i < v.len()
        invariant
            i <= v@.len(),
            forall|j: int| 0 <= j < i ==> v@[j] != x,
        decreases v@.len() - i,
    {
        if v[i] == x {
            assert(v@[i as int] == x);
            return true;
        }
        i += 1;
    }
    false
}

fn contains_link(v: &Vec<Link>, x: Link) -> (r: bool)
    ensures
        r == v@.contains(x),
{
    let mut i: usize = 0;
    while i < v.len()
        invariant
            i <= v@.len(),
            forall|j: int| 0 <= j < i ==> v@[j] != x,
        decreases v@.len() - i,
    {
        if v[i] == x {
            assert(v@[i as int] == x);
            return true;
        }
        i += 1;
    }
    false
}

proof fn lemma_push_contains<A>(s: Seq<A>, a: A, b: A)
    ensures
        s.push(a).contains(b) <==> s.contains(b) || a == b,
{
    if s.push(a).contains(b) {
        let i = choose|i: int| 0 <= i < s.len() + 1 && s.push(a)[i] == b;
        if i < s.len() {
            assert(s[i] == b);
        }
    }
    if s.contains(b) {
        let i = choose|i: int| 0 <= i < s.len() && s[i] == b;
        assert(s.push(a)[i] == b);
    }
    if a == b {
        assert(s.push(a)[s.len() as int] == b);
    }
}

/// The links of `owner` under `rel` name exactly the identifiers in `ids`.
pub open spec fn links_match(links: Seq<Link>, owner: i64, rel: Relation, ids: Seq<i64>) -> bool {
    forall|x: i64| links.contains(link(owner, rel, x)) <==> ids.contains(x)
}

/// What a sync of `owner`'s links under `rel` to `desired` leaves: the links
/// of that pair name exactly `desired`, no link of any other owner or relation
/// is added or removed, and when the links matched already nothing changed.
pub open spec fn sync_post(before: Seq<Link>, after: Seq<Link>, owner: i64, rel: Relation, desired: Seq<i64>) -> bool {
    &&& links_match(after, owner, rel, desired)
    &&& forall|l: Link|
        !(l.owner == owner && l.relation == rel) ==> (after.contains(l) <==> before.contains(l))
    &&& links_match(before, owner, rel, desired) ==> after == before
}

/// Syncing twice with the same identifiers: the second sync leaves the links
/// exactly as the first left them, so it inserts and deletes nothing.
pub proof fn lemma_sync_idempotent(
    before: Seq<Link>,
    once: Seq<Link>,
    twice: Seq<Link>,
    owner: i64,
    rel: Relation,
    desired: Seq<i64>,
)
    requires
        sync_post(before, once, owner, rel, desired),
        sync_post(once, twice, owner, rel, desired),
    ensures
        twice == once,
{
}

/// After a sync, resolving the relation gives exactly the desired
/// identifiers, each once, whatever the links were before.
pub proof fn lemma_sync_then_resolve(
    before: Seq<Link>,
    after: Seq<Link>,
    owner: i64,
    rel: Relation,
    desired: Seq<i64>,
)
    requires
        sync_post(before, after, owner, rel, desired),
        after.no_duplicates(),
    ensures
        related_of(after, owner, rel).to_set() == desired.to_set(),
        related_of(after, owner, rel).no_duplicates(),
{
    lemma_related_of(after, owner, rel);
    assert(related_of(after, owner, rel).to_set() =~= desired.to_set());
}

/// Makes the links of `owner` under `rel` name exactly the identifiers in
/// `desired`, once each: links to identifiers no longer desired are deleted,
/// links to newly desired ones are added at the end, and every other link
/// stays where it is. When the links already match, nothing is written.
/// An owner without an identifier is refused before any write.
pub fn sync_relation(owner: Option<i64>, rel: Relation, desired: &Vec<i64>, store: &mut Store) -> (r:
    Result<(), MappingError>)
    requires
        old(store).wf(),
    ensures
        final(store).wf(),
        final(store).tables@ == old(store).tables@,
        owner is None ==> r == Err::<(), MappingError>(MappingError::UnpersistedOwner) && final(store).links@
            == old(store).links@,
        owner is Some ==> r is Ok,
        owner is Some ==> sync_post(old(store).links@, final(store).links@, owner->Some_0, rel, desired@),
{
    let o = match owner {
        None => {
            return Err(MappingError::UnpersistedOwner);
        },
        Some(o) => o,
    };
    let ghost links = store.links@;
    let ghost settled = links_match(links, o, rel, desired@);
    let mut kept: Vec<Link> = Vec::new();
    let mut i: usize = 0;
    while i < store.links.len()
        invariant
            store.wf(),
            store.links@ == links,
            i <= links.len(),
            settled == links_match(links, o, rel, desired@),
            forall|l: Link|
                #[trigger] kept@.contains(l) <==> (links.take(i as int).contains(l) && !(l.owner == o && l.relation
                    == rel && !desired@.contains(l.related))),
            forall|k: int| 0 <= k < kept@.len() ==> links.take(i as int).contains(#[trigger] kept@[k]),
            kept@.no_duplicates(),
            settled ==> kept@ == links.take(i as int),
        decreases links.len() - i,
    {
        let l = store.links[i];
        let ghost prefix = links.take(i as int);
        assert(links.take(i as int + 1) =~= prefix.push(l));
        proof {
            assert(!prefix.contains(l)) by {
                if prefix.contains(l) {
                    let k = choose|k: int| 0 <= k < prefix.len() && prefix[k] == l;
                    assert(links[k] == links[i as int]);
                }
            };
            assert forall|m: Link| #[trigger] prefix.push(l).contains(m) <==> prefix.contains(m) || l == m by {
                lemma_push_contains(prefix, l, m);
            };
        }
        let drop = l.owner == o && l.relation == rel && !contains_id(desired, l.related);
        if !drop {
            let ghost before = kept@;
            kept.push(l);
            proof {
                assert forall|m: Link| #[trigger] kept@.contains(m) <==> before.contains(m) || l == m by {
                    lemma_push_contains(before, l, m);
                };
                assert forall|a: int, b: int| 0 <= a < b < kept@.len() implies kept@[a] != kept@[b] by {
                    if b == before.len() {
                        assert(prefix.contains(before[a]));
                    }
                };
            }
        } else {
            proof {
                if settled {
                    assert(links.contains(link(o, rel, l.related))) by {
                        assert(links[i as int] == l);
                    };
                }
            }
        }
        i += 1;
    }
    assert(links.take(i as int) =~= links);
    let mut j: usize = 0;
    while j < desired.len()
        invariant
            j <= desired@.len(),
            settled == links_match(links, o, rel, desired@),
            forall|l: Link|
                #[trigger] kept@.contains(l) <==> ((links.contains(l) && !(l.owner == o && l.relation == rel
                    && !desired@.contains(l.related))) || (l.owner == o && l.relation == rel
                    && desired@.take(j as int).contains(l.related))),
            kept@.no_duplicates(),
            settled ==> kept@ == links,
        decreases desired@.len() - j,
    {
        let x = desired[j];
        let l = Link { owner: o, related: x, relation: rel };
        let ghost dprefix = desired@.take(j as int);
        assert(desired@.take(j as int + 1) =~= dprefix.push(x));
        proof {
            assert forall|y: i64| #[trigger] dprefix.push(x).contains(y) <==> dprefix.contains(y) || x == y by {
                lemma_push_contains(dprefix, x, y);
            };
            assert(desired@.contains(x)) by {
                assert(desired@[j as int] == x);
            };
        }
        if !contains_link(&kept, l) {
            proof {
                if settled {
                    assert(links.contains(link(o, rel, x)));
                    assert(kept@.contains(l));
                }
            }
            let ghost before = kept@;
            kept.push(l);
            proof {
                assert forall|m: Link| #[trigger] kept@.contains(m) <==> before.contains(m) || l == m by {
                    lemma_push_contains(before, l, m);
                };
                assert forall|a: int, b: int| 0 <= a < b < kept@.len() implies kept@[a] != kept@[b] by {
                    if b == before.len() {
                        assert(before.contains(before[a]));
                    }
                };
            }
        }
        j += 1;
    }
    assert(desired@.take(j as int) =~= desired@);
    proof {
        assert forall|x: i64| kept@.contains(link(o, rel, x)) <==> desired@.contains(x) by {
            let l = link(o, rel, x);
            assert(l.owner == o && l.relation == rel && l.related == x);
        };
    }
    store.links = kept;
    Ok(())
}

/// The writes that take a relation's stored identifiers `existing` to
/// `desired`: identifiers to delete, those only in `existing`, and identifiers
/// to insert, those only in `desired`, each once and in the order met. When
/// the two agree as sets there is nothing to write.
pub fn plan_sync(existing: &Vec<i64>, desired: &Vec<i64>) -> (r: (Vec<i64>, Vec<i64>))
    ensures
        forall|x: i64| r.0@.contains(x) <==> existing@.contains(x) && !desired@.contains(x),
        forall|x: i64| r.1@.contains(x) <==> desired@.contains(x) && !existing@.contains(x),
        r.0@.no_duplicates(),
        r.1@.no_duplicates(),
        existing@.to_set() == desired@.to_set() ==> r.0@.len() == 0 && r.1@.len() == 0,
{
    let to_delete = only_in(existing, desired);
    let to_insert = only_in(desired, existing);
    proof {
        if existing@.to_set() == desired@.to_set() {
            assert forall|x: i64| existing@.contains(x) <==> desired@.contains(x) by {
                assert(existing@.to_set().contains(x) == desired@.to_set().contains(x));
            };
            if to_delete@.len() > 0 {
                assert(to_delete@.contains(to_delete@[0]));
            }
            if to_insert@.len() > 0 {
                assert(to_insert@.contains(to_insert@[0]));
            }
        }
    }
    (to_delete, to_insert)
}

/// The identifiers of `a` that `b` lacks, each once, in the order of `a`.
fn only_in(a: &Vec<i64>, b: &Vec<i64>) -> (r: Vec<i64>)
    ensures
        forall|x: i64| r@.contains(x) <==> a@.contains(x) && !b@.contains(x),
        r@.no_duplicates(),
{
    let mut out: Vec<i64> = Vec::new();
    let mut i: usize = 0;
    while i < a.len()
        invariant
            i <= a@.len(),
            forall|x: i64| #[trigger] out@.contains(x) <==> a@.take(i as int).contains(x) && !b@.contains(x),
            out@.no_duplicates(),
        decreases a@.len() - i,
    {
        let x = a[i];
        let ghost prefix = a@.take(i as int);
        assert(a@.take(i as int + 1) =~= prefix.push(x));
        proof {
            assert forall|y: i64| #[trigger] prefix.push(x).contains(y) <==> prefix.contains(y) || x == y by {
                lemma_push_contains(prefix, x, y);
            };
        }
        if !contains_id(b, x) && !contains_id(&out, x) {
            let ghost before = out@;
            out.push(x);
            proof {
                assert forall|y: i64| #[trigger] out@.contains(y) <==> before.contains(y) || x == y by {
                    lemma_push_contains(before, x, y);
                };
                assert forall|m: int, n: int| 0 <= m < n < out@.len() implies out@[m] != out@[n] by {
                    if n == before.len() {
                        assert(before.contains(before[m]));
                    }
                };
            }
        }
        i += 1;
    }
    assert(a@.take(i as int) =~= a@);
    out
}

} // verus!
