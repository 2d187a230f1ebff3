use vstd::prelude::*;
use crate::model::{ContainerRecord, RecordView, records_view};

verus! {

/// Some record of `s` carries identifier `id`.
pub open spec fn has_id(s: Seq<RecordView>, id: Seq<char>) -> bool {
    exists|j: int| 0 <= j < s.len() && #[trigger] s[j].id == id
}

/// `j` is the first position of `s` whose record carries identifier `id`.
pub open spec fn is_first(s: Seq<RecordView>, id: Seq<char>, j: int) -> bool {
    &&& 0 <= j < s.len()
    &&& s[j].id == id
    &&& forall|k: int| 0 <= k < j ==> #[trigger] s[k].id != id
}

/// The first record of `s` that carries identifier `id`, if any.
pub open spec fn lookup(s: Seq<RecordView>, id: Seq<char>) -> Option<RecordView> {
    if exists|j: int| is_first(s, id, j) {
        Some(s[choose|j: int| is_first(s, id, j)])
    } else {
        None
    }
}

/// The existing records whose identifier the listing still holds, in their
/// existing order, each overwritten by the listing's record for it.
pub open spec fn updated(existing: Seq<RecordView>, listing: Seq<RecordView>) -> Seq<RecordView>
    decreases existing.len(),
{
    if existing.len() == 0 {
        Seq::empty()
    } else {
        let prev = updated(existing.drop_last(), listing);
        match lookup(listing, existing.last().id) {
            Some(r) => prev.push(r),
            None => prev,
        }
    }
}

/// The listing's records whose identifier is not among the existing ones,
/// in listing order.
pub open spec fn fresh(listing: Seq<RecordView>, existing: Seq<RecordView>) -> Seq<RecordView>
    decreases listing.len(),
{
    if listing.len() == 0 {
        Seq::empty()
    } else {
        let prev = fresh(listing.drop_last(), existing);
        if has_id(existing, listing.last().id) {
            prev
        } else {
            prev.push(listing.last())
        }
    }
}

/// The collection after reconciling `existing` against a runtime listing:
/// records matched by identifier are updated in place, unseen ones dropped,
/// new ones appended.
pub open spec fn reconciled(existing: Seq<RecordView>, listing: Seq<RecordView>) -> Seq<RecordView> {
    updated(existing, listing) + fresh(listing, existing)
}

/// No two records of `s` share an identifier.
pub open spec fn ids_unique(s: Seq<RecordView>) -> bool {
    forall|a: int, b: int|
        #![trigger s[a], s[b]]
        0 <= a < b < s.len() ==> s[a].id != s[b].id
}

/// Every record of `s` is the record that `listing` holds for its identifier.
pub open spec fn canonical(s: Seq<RecordView>, listing: Seq<RecordView>) -> bool {
    forall|i: int| 0 <= i < s.len() ==> lookup(listing, #[trigger] s[i].id) == Some(s[i])
}

/// The first record with identifier `id` is what `lookup` returns.
pub proof fn lemma_first_is_lookup(s: Seq<RecordView>, id: Seq<char>, j: int)
    requires
        is_first(s, id, j),
    ensures
        lookup(s, id) == Some(s[j]),
{
    let k = choose|k: int| is_first(s, id, k);
    assert(is_first(s, id, k));
    if k < j {
        assert(s[k].id != id);
    } else if k > j {
        assert(s[j].id != id);
    }
}

proof fn lemma_lookup_of_unique(s: Seq<RecordView>, j: int)
    requires
        ids_unique(s),
        0 <= j < s.len(),
    ensures
        lookup(s, s[j].id) == Some(s[j]),
{
    assert forall|k: int| 0 <= k < j implies #[trigger] s[k].id != s[j].id by {
        assert(s[k].id != s[j].id);
    }
    lemma_first_is_lookup(s, s[j].id, j);
}

/// What `lookup` returns stands at the first position with identifier `id`.
pub proof fn lemma_lookup_found(s: Seq<RecordView>, id: Seq<char>)
    requires
        lookup(s, id) is Some,
    ensures
        exists|j: int| is_first(s, id, j) && s[j] == lookup(s, id)->0,
{
    let k = choose|k: int| is_first(s, id, k);
    assert(is_first(s, id, k));
}

proof fn lemma_updated_canonical(existing: Seq<RecordView>, listing: Seq<RecordView>)
    requires
        ids_unique(listing),
    ensures
        canonical(updated(existing, listing), listing),
    decreases existing.len(),
{
    if existing.len() > 0 {
        lemma_updated_canonical(existing.drop_last(), listing);
        let prev = updated(existing.drop_last(), listing);
        let u = updated(existing, listing);
        if let Some(r) = lookup(listing, existing.last().id) {
            lemma_lookup_found(listing, existing.last().id);
            let j = choose|j: int| is_first(listing, existing.last().id, j) && listing[j] == r;
            lemma_lookup_of_unique(listing, j);
            assert forall|i: int| 0 <= i < u.len() implies lookup(listing, #[trigger] u[i].id) == Some(u[i]) by {
                if i < prev.len() {
                    assert(u[i] == prev[i]);
                }
            }
        }
    }
}

proof fn lemma_fresh_drawn(listing: Seq<RecordView>, existing: Seq<RecordView>)
    ensures
        forall|i: int| 0 <= i < fresh(listing, existing).len() ==>
            exists|j: int| 0 <= j < listing.len() && #[trigger] fresh(listing, existing)[i] == listing[j],
    decreases listing.len(),
{
    if listing.len() > 0 {
        let m = listing.drop_last();
        lemma_fresh_drawn(m, existing);
        let prev = fresh(m, existing);
        let f = fresh(listing, existing);
        assert forall|i: int| 0 <= i < f.len() implies
            exists|j: int| 0 <= j < listing.len() && #[trigger] f[i] == listing[j] by {
            if i < prev.len() {
                let j = choose|j: int| 0 <= j < m.len() && prev[i] == m[j];
                assert(f[i] == listing[j]);
            } else {
                assert(f[i] == listing[listing.len() - 1]);
            }
        }
    }
}

proof fn lemma_updated_fixed(s: Seq<RecordView>, listing: Seq<RecordView>)
    requires
        canonical(s, listing),
    ensures
        updated(s, listing) == s,
    decreases s.len(),
{
    if s.len() > 0 {
        let m = s.drop_last();
        assert forall|i: int| 0 <= i < m.len() implies lookup(listing, #[trigger] m[i].id) == Some(m[i]) by {
            assert(m[i] == s[i]);
        }
        lemma_updated_fixed(m, listing);
        assert(lookup(listing, s[s.len() - 1].id) == Some(s[s.len() - 1]));
        assert(m.push(s.last()) =~= s);
    }
}

proof fn lemma_fresh_empty(listing: Seq<RecordView>, existing: Seq<RecordView>)
    requires
        forall|j: int| 0 <= j < listing.len() ==> has_id(existing, #[trigger] listing[j].id),
    ensures
        fresh(listing, existing) == Seq::<RecordView>::empty(),
    decreases listing.len(),
{
    if listing.len() > 0 {
        let m = listing.drop_last();
        assert forall|j: int| 0 <= j < m.len() implies has_id(existing, #[trigger] m[j].id) by {
            assert(m[j] == listing[j]);
        }
        lemma_fresh_empty(m, existing);
        assert(has_id(existing, listing[listing.len() - 1].id));
    }
}

proof fn lemma_updated_has(existing: Seq<RecordView>, listing: Seq<RecordView>, id: Seq<char>)
    requires
        has_id(existing, id),
        lookup(listing, id) is Some,
    ensures
        has_id(updated(existing, listing), id),
    decreases existing.len(),
{
    let m = existing.drop_last();
    let prev = updated(m, listing);
    let u = updated(existing, listing);
    if existing.last().id == id {
        lemma_lookup_found(listing, id);
        assert(u[u.len() - 1].id == id);
    } else {
        let i = choose|i: int| 0 <= i < existing.len() && #[trigger] existing[i].id == id;
        assert(m[i] == existing[i]);
        lemma_updated_has(m, listing, id);
        let k = choose|k: int| 0 <= k < prev.len() && #[trigger] prev[k].id == id;
        assert(u[k] == prev[k]);
    }
}

proof fn lemma_fresh_has(listing: Seq<RecordView>, existing: Seq<RecordView>, j: int)
    requires
        0 <= j < listing.len(),
        !has_id(existing, listing[j].id),
    ensures
        has_id(fresh(listing, existing), listing[j].id),
    decreases listing.len(),
{
    let m = listing.drop_last();
    let f = fresh(listing, existing);
    if j == listing.len() - 1 {
        assert(f[f.len() - 1].id == listing[j].id);
    } else {
        assert(m[j] == listing[j]);
        lemma_fresh_has(m, existing, j);
        let prev = fresh(m, existing);
        let k = choose|k: int| 0 <= k < prev.len() && #[trigger] prev[k].id == listing[j].id;
        assert(f[k] == prev[k]);
    }
}

/// Under a listing with distinct identifiers, every record of the
/// reconciled collection is the listing's record for its identifier.
pub proof fn lemma_reconciled_canonical(existing: Seq<RecordView>, listing: Seq<RecordView>)
    requires
        ids_unique(listing),
    ensures
        canonical(reconciled(existing, listing), listing),
{
    let r = reconciled(existing, listing);
    let u = updated(existing, listing);
    let f = fresh(listing, existing);
    lemma_updated_canonical(existing, listing);
    lemma_fresh_drawn(listing, existing);
    assert forall|i: int| 0 <= i < r.len() implies lookup(listing, #[trigger] r[i].id) == Some(r[i]) by {
        if i < u.len() {
            assert(r[i] == u[i]);
        } else {
            let k = i - u.len();
            assert(r[i] == f[k]);
            let j = choose|j: int| 0 <= j < listing.len() && f[k] == listing[j];
            lemma_lookup_of_unique(listing, j);
        }
    }
}

/// Under a listing with distinct identifiers, every identifier of the
/// listing is present after reconciliation.
pub proof fn lemma_reconciled_covers(existing: Seq<RecordView>, listing: Seq<RecordView>, j: int)
    requires
        ids_unique(listing),
        0 <= j < listing.len(),
    ensures
        has_id(reconciled(existing, listing), listing[j].id),
{
    let r = reconciled(existing, listing);
    let u = updated(existing, listing);
    let f = fresh(listing, existing);
    if has_id(existing, listing[j].id) {
        lemma_lookup_of_unique(listing, j);
        lemma_updated_has(existing, listing, listing[j].id);
        let i = choose|i: int| 0 <= i < u.len() && #[trigger] u[i].id == listing[j].id;
        assert(r[i] == u[i]);
    } else {
        lemma_fresh_has(listing, existing, j);
        let i = choose|i: int| 0 <= i < f.len() && #[trigger] f[i].id == listing[j].id;
        assert(r[u.len() + i] == f[i]);
    }
}

/// Reconciling twice against the same listing, with no change in between,
/// gives the same collection as reconciling once (for a listing whose
/// identifiers are distinct, as a runtime's are).
pub proof fn lemma_reconcile_idempotent(existing: Seq<RecordView>, listing: Seq<RecordView>)
    requires
        ids_unique(listing),
    ensures
        reconciled(reconciled(existing, listing), listing) == reconciled(existing, listing),
{
    let r = reconciled(existing, listing);
    lemma_reconciled_canonical(existing, listing);
    lemma_updated_fixed(r, listing);
    assert forall|j: int| 0 <= j < listing.len() implies has_id(r, #[trigger] listing[j].id) by {
        lemma_reconciled_covers(existing, listing, j);
    }
    lemma_fresh_empty(listing, r);
    assert(reconciled(r, listing) =~= r);
}

/// Reconciling `[a, b, c]` against a listing `[b2, c2, d]`, where `b2` and
/// `c2` carry the identifiers of `b` and `c`, gives `[b2, c2, d]`: `a` is
/// dropped, `b` and `c` are updated in place and keep their order, and `d`
/// is appended after them.
pub proof fn lemma_reconcile_churn(
    a: RecordView,
    b: RecordView,
    c: RecordView,
    b2: RecordView,
    c2: RecordView,
    d: RecordView,
)
    requires
        b2.id == b.id,
        c2.id == c.id,
        a.id != b.id,
        a.id != c.id,
        a.id != d.id,
        b.id != c.id,
        b.id != d.id,
        c.id != d.id,
    ensures
        reconciled(seq![a, b, c], seq![b2, c2, d]) == seq![b2, c2, d],
{
    let e = seq![a, b, c];
    let l = seq![b2, c2, d];
    lemma_lookup_of_unique(l, 0);
    lemma_lookup_of_unique(l, 1);
    if exists|j: int| is_first(l, a.id, j) {
        let j = choose|j: int| is_first(l, a.id, j);
        assert(l[j].id == a.id);
        assert(j == 0 || j == 1 || j == 2);
    }
    assert(lookup(l, a.id) is None);
    assert(e.drop_last() =~= seq![a, b]);
    assert(seq![a, b].drop_last() =~= seq![a]);
    assert(seq![a].drop_last() =~= Seq::<RecordView>::empty());
    assert(updated(Seq::<RecordView>::empty(), l) =~= Seq::<RecordView>::empty());
    assert(seq![a].last() == a);
    assert(updated(seq![a], l) =~= Seq::<RecordView>::empty());
    assert(updated(seq![a, b], l) =~= seq![b2]);
    assert(updated(e, l) =~= seq![b2, c2]);
    assert(l.drop_last() =~= seq![b2, c2]);
    assert(seq![b2, c2].drop_last() =~= seq![b2]);
    assert(seq![b2].drop_last() =~= Seq::<RecordView>::empty());
    assert(e[1].id == b2.id);
    assert(e[2].id == c2.id);
    assert(!has_id(e, d.id)) by {
        if has_id(e, d.id) {
            let i = choose|i: int| 0 <= i < e.len() && #[trigger] e[i].id == d.id;
            assert(i == 0 || i == 1 || i == 2);
        }
    }
    assert(fresh(Seq::<RecordView>::empty(), e) =~= Seq::<RecordView>::empty());
    assert(seq![b2].last() == b2);
    assert(has_id(e, b2.id));
    assert(has_id(e, c2.id));
    assert(fresh(seq![b2], e) =~= Seq::<RecordView>::empty());
    assert(fresh(seq![b2, c2], e) =~= Seq::<RecordView>::empty());
    assert(fresh(l, e) =~= seq![d]);
    assert(reconciled(e, l) =~= l);
}

/// Position of the first record of `v` with identifier `id`.
pub fn find_index(v: &Vec<ContainerRecord>, id: &String) -> (r: Option<usize>)
    ensures
        match r {
            Some(j) => is_first(records_view(v@), id@, j as int),
            None => !has_id(records_view(v@), id@),
        },
{
    let ghost s = records_view(v@);
    let mut j: usize = 0;
    while j < v.len()
        invariant
            j <= v.len(),
            s == records_view(v@),
            forall|k: int| 0 <= k < j ==> #[trigger] s[k].id != id@,
        decreases v.len() - j,
    {
        if v[j].id == *id {
            return Some(j);
        }
        j = j + 1;
    }
    None
}

/// Reconciles `current` against `listing` in place: matched rows are
/// overwritten where they stand, unseen rows are dropped with the others
/// closing up in order, and new rows are appended.
pub fn reconcile(current: &mut Vec<ContainerRecord>, listing: &Vec<ContainerRecord>)
    ensures
        records_view(final(current)@) == reconciled(records_view(old(current)@), records_view(listing@)),
{
    let ghost existing = records_view(current@);
    let ghost lst = records_view(listing@);
    let n = current.len();
    let mut known: Vec<bool> = Vec::new();
    let mut j: usize = 0;
    while j < listing.len()
        invariant
            j <= listing.len(),
            existing == records_view(current@),
            lst == records_view(listing@),
            known@.len() == j,
            forall|k: int| 0 <= k < j ==> #[trigger] known@[k] == has_id(existing, lst[k].id),
        decreases listing.len() - j,
    {
        let found = find_index(current, &listing[j].id);
        known.push(found.is_some());
        j = j + 1;
    }
    let mut w: usize = 0;
    let mut i: usize = 0;
    while i < n
        invariant
            n == current@.len(),
            n == existing.len(),
            w <= i <= n,
            lst == records_view(listing@),
            records_view(current@).subrange(0, w as int) == updated(existing.subrange(0, i as int), lst),
            forall|k: int| i <= k < n ==> #[trigger] current@[k]@ == existing[k],
        decreases n - i,
    {
        let ghost before = records_view(current@).subrange(0, w as int);
        assert(existing.subrange(0, i + 1).drop_last() =~= existing.subrange(0, i as int));
        assert(current@[i as int]@ == existing[i as int]);
        match find_index(listing, &current[i].id) {
            Some(j) => {
                current[w] = listing[j].duplicate();
                assert(records_view(current@).subrange(0, w + 1) =~= before.push(lst[j as int]));
                w = w + 1;
            },
            None => {},
        }
        i = i + 1;
    }
    assert(existing.subrange(0, n as int) =~= existing);
    current.truncate(w);
    assert(records_view(current@) =~= updated(existing, lst));
    let ghost head = updated(existing, lst);
    let mut j: usize = 0;
    while j < listing.len()
        invariant
            j <= listing.len(),
            known@.len() == listing.len(),
            lst == records_view(listing@),
            forall|k: int| 0 <= k < listing.len() ==> #[trigger] known@[k] == has_id(existing, lst[k].id),
            head == updated(existing, lst),
            records_view(current@) == head + fresh(lst.subrange(0, j as int), existing),
        decreases listing.len() - j,
    {
        let ghost before = records_view(current@);
        assert(lst.subrange(0, j + 1).drop_last() =~= lst.subrange(0, j as int));
        if !known[j] {
            current.push(listing[j].duplicate());
            assert(records_view(current@) =~= before.push(lst[j as int]));
        }
        assert(records_view(current@) =~= head + fresh(lst.subrange(0, j + 1), existing));
        j = j + 1;
    }
    assert(lst.subrange(0, listing.len() as int) =~= lst);
}

} // verus!
