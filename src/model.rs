//! The store as a mathematical value, what each operation does to it, and
//! the laws that follow.
use crate::book::{
    delete_missing_msg, get_missing_msg, invalid_payload_msg, payload_is_valid,
    update_missing_msg, BookView, ErrorView, PayloadView,
};
use vstd::prelude::*;

verus! {

/// The allocator's next identifier and the stored books.
pub ghost struct StoreView {
    pub next_id: u64,
    pub books: Map<u64, BookView>,
}

/// Every stored book carries its key, and every key was handed out before.
pub open spec fn store_wf(s: StoreView) -> bool {
    forall|k: u64| #[trigger]
        s.books.contains_key(k) ==> k < s.next_id && s.books[k].id == k
}

/// What a lookup of `id` returns.
pub open spec fn get_spec(s: StoreView, id: u64) -> Result<BookView, ErrorView> {
    if s.books.contains_key(id) {
        Ok(s.books[id])
    } else {
        Err(ErrorView::NotFound(get_missing_msg(id)))
    }
}

/// The store after, and the result of, creating a book from `p` at `now`.
pub open spec fn add_spec(s: StoreView, p: PayloadView, now: u64) -> (StoreView, Result<
    BookView,
    ErrorView,
>) {
    if !payload_is_valid(p) {
        (s, Err(ErrorView::InvalidInput(invalid_payload_msg())))
    } else {
        let b = BookView {
            id: s.next_id,
            title: p.title,
            author: p.author,
            created_at: now,
            updated_at: None,
        };
        (StoreView { next_id: (s.next_id + 1) as u64, books: s.books.insert(b.id, b) }, Ok(b))
    }
}

/// The store after, and the result of, updating the book at `id` from `p`
/// at `now`.
pub open spec fn update_spec(s: StoreView, id: u64, p: PayloadView, now: u64) -> (
    StoreView,
    Result<BookView, ErrorView>,
) {
    if !payload_is_valid(p) {
        (s, Err(ErrorView::InvalidInput(invalid_payload_msg())))
    } else if !s.books.contains_key(id) {
        (s, Err(ErrorView::NotFound(update_missing_msg(id))))
    } else {
        let b = BookView {
            title: p.title,
            author: p.author,
            updated_at: Some(now),
            ..s.books[id]
        };
        (StoreView { books: s.books.insert(id, b), ..s }, Ok(b))
    }
}

/// The store after, and the result of, deleting the book at `id`.
pub open spec fn delete_spec(s: StoreView, id: u64) -> (StoreView, Result<BookView, ErrorView>) {
    if s.books.contains_key(id) {
        (StoreView { books: s.books.remove(id), ..s }, Ok(s.books[id]))
    } else {
        (s, Err(ErrorView::NotFound(delete_missing_msg(id))))
    }
}

/// The stores and results of creating books from `ps[0]`, `ps[1]`, ... in
/// turn, at the times `ts[0]`, `ts[1]`, ...
pub open spec fn add_all(s: StoreView, ps: Seq<PayloadView>, ts: Seq<u64>) -> (StoreView, Seq<
    Result<BookView, ErrorView>,
>)
    decreases ps.len(),
{
    if ps.len() == 0 {
        (s, seq![])
    } else {
        let (s1, rs) = add_all(s, ps.drop_last(), ts.drop_last());
        let (s2, r) = add_spec(s1, ps.last(), ts.last());
        (s2, rs.push(r))
    }
}

/// Looking up the identifier that a successful creation returned yields
/// the book that the creation returned.
pub proof fn law_add_then_get(s: StoreView, p: PayloadView, now: u64)
    requires
        store_wf(s),
        payload_is_valid(p),
        s.next_id < u64::MAX,
    ensures
        add_spec(s, p, now).1 is Ok,
        get_spec(add_spec(s, p, now).0, add_spec(s, p, now).1->Ok_0.id) == add_spec(s, p, now).1,
{
}

/// Successive successful creations hand out identifiers that go up by
/// exactly one from the counter's value; on a fresh store, whose counter is
/// 0, they are 0, 1, 2, ...
pub proof fn law_ids_count_up(s: StoreView, ps: Seq<PayloadView>, ts: Seq<u64>)
    requires
        ps.len() == ts.len(),
        forall|i: int| 0 <= i < ps.len() ==> payload_is_valid(#[trigger] ps[i]),
        s.next_id + ps.len() <= u64::MAX,
    ensures
        add_all(s, ps, ts).1.len() == ps.len(),
        add_all(s, ps, ts).0.next_id == s.next_id + ps.len(),
        forall|i: int|
            0 <= i < ps.len() ==> (#[trigger] add_all(s, ps, ts).1[i] matches Ok(b) && b.id
                == s.next_id + i),
        s.next_id == 0 ==> forall|i: int|
            0 <= i < ps.len() ==> (#[trigger] add_all(s, ps, ts).1[i] matches Ok(b) && b.id
                == i),
    decreases ps.len(),
{
    if ps.len() > 0 {
        let ps0 = ps.drop_last();
        let ts0 = ts.drop_last();
        assert forall|i: int| 0 <= i < ps0.len() implies payload_is_valid(#[trigger] ps0[i]) by {
            assert(ps0[i] == ps[i]);
        }
        law_ids_count_up(s, ps0, ts0);
        assert(payload_is_valid(ps[ps.len() - 1]));
    }
}

/// A creation with an empty title or author fails with `InvalidInput`,
/// changes nothing, and so leaves the identifier that the next successful
/// creation receives as it was.
pub proof fn law_rejected_add_changes_nothing(
    s: StoreView,
    bad: PayloadView,
    t1: u64,
    good: PayloadView,
    t2: u64,
)
    requires
        !payload_is_valid(bad),
    ensures
        add_spec(s, bad, t1) == (s, Err::<BookView, ErrorView>(
            ErrorView::InvalidInput(invalid_payload_msg()),
        )),
        add_spec(add_spec(s, bad, t1).0, good, t2) == add_spec(s, good, t2),
{
}

/// A lookup of an identifier that was never handed out fails with
/// `NotFound`.
pub proof fn law_unassigned_not_found(s: StoreView, id: u64)
    requires
        store_wf(s),
        id >= s.next_id,
    ensures
        get_spec(s, id) == Err::<BookView, ErrorView>(ErrorView::NotFound(get_missing_msg(id))),
{
}

/// An update of a stored book with a valid payload replaces its title and
/// author, sets its update time, and keeps its identifier and creation
/// time; a second update at another time sets a new update time.
pub proof fn law_update_keeps_identity(
    s: StoreView,
    id: u64,
    p1: PayloadView,
    t1: u64,
    p2: PayloadView,
    t2: u64,
)
    requires
        store_wf(s),
        s.books.contains_key(id),
        payload_is_valid(p1),
        payload_is_valid(p2),
        t1 != t2,
    ensures
        ({
            let (s1, r1) = update_spec(s, id, p1, t1);
            let (s2, r2) = update_spec(s1, id, p2, t2);
            &&& r1 matches Ok(b1)
            &&& b1.id == id
            &&& b1.title == p1.title
            &&& b1.author == p1.author
            &&& b1.created_at == s.books[id].created_at
            &&& b1.updated_at == Some(t1)
            &&& r2 matches Ok(b2)
            &&& b2.id == id
            &&& b2.created_at == s.books[id].created_at
            &&& b2.updated_at is Some
            &&& b2.updated_at != b1.updated_at
        }),
{
}

/// An update with an empty title or author fails with `InvalidInput` and
/// changes nothing, whether or not a book is stored at `id`.
pub proof fn law_update_validates_first(s: StoreView, id: u64, p: PayloadView, now: u64)
    requires
        !payload_is_valid(p),
    ensures
        update_spec(s, id, p, now) == (s, Err::<BookView, ErrorView>(
            ErrorView::InvalidInput(invalid_payload_msg()),
        )),
{
}

/// After a deletion of `id`, a lookup of `id` fails with `NotFound`, and
/// so does a second deletion, which changes nothing.
pub proof fn law_delete_then_absent(s: StoreView, id: u64)
    ensures
        ({
            let s1 = delete_spec(s, id).0;
            &&& get_spec(s1, id) == Err::<BookView, ErrorView>(
                ErrorView::NotFound(get_missing_msg(id)),
            )
            &&& delete_spec(s1, id) == (s1, Err::<BookView, ErrorView>(
                ErrorView::NotFound(delete_missing_msg(id)),
            ))
        }),
{
}

/// Every operation keeps the store well formed.
pub proof fn law_operations_keep_wf(s: StoreView, id: u64, p: PayloadView, now: u64)
    requires
        store_wf(s),
        payload_is_valid(p) ==> s.next_id < u64::MAX,
    ensures
        store_wf(add_spec(s, p, now).0),
        store_wf(update_spec(s, id, p, now).0),
        store_wf(delete_spec(s, id).0),
{
}

} // verus!
