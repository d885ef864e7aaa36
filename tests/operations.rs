use book_store::book::{Book, BookPayload, Error};
use book_store::store::BookStore;

fn payload(title: &str, author: &str) -> BookPayload {
    BookPayload { title: title.to_string(), author: author.to_string() }
}

fn fresh() -> BookStore {
    BookStore::init().expect("a fresh memory holds a consistent store")
}

fn not_found_msg(r: Result<Book, Error>) -> String {
    match r {
        Err(Error::NotFound { msg }) => msg,
        other => panic!("expected NotFound, got {:?}", other),
    }
}

fn invalid_msg(r: Result<Book, Error>) -> String {
    match r {
        Err(Error::InvalidInput { msg }) => msg,
        other => panic!("expected InvalidInput, got {:?}", other),
    }
}

#[test]
fn fresh_store_starts_at_zero() {
    let s = fresh();
    assert_eq!(s.next_id(), 0);
}

#[test]
fn add_then_get_returns_same_record() {
    let mut s = fresh();
    let added = s.add_book(payload("Emma", "Austen"), 42).unwrap();
    let got = s.get_book(added.id).unwrap();
    assert_eq!(got, added);
    assert_eq!(got.title, "Emma");
    assert_eq!(got.author, "Austen");
    assert_eq!(got.created_at, 42);
    assert_eq!(got.updated_at, None);
}

#[test]
fn ids_count_up_from_zero() {
    let mut s = fresh();
    for i in 0..5u64 {
        let b = s.add_book(payload("T", "A"), 100 + i).unwrap();
        assert_eq!(b.id, i);
    }
    assert_eq!(s.next_id(), 5);
}

#[test]
fn empty_title_or_author_rejected_without_advancing() {
    let mut s = fresh();
    let m1 = invalid_msg(s.add_book(payload("", "X"), 1));
    let m2 = invalid_msg(s.add_book(payload("X", ""), 2));
    assert_eq!(m1, "All fields must be provided and non-empty");
    assert_eq!(m2, "All fields must be provided and non-empty");
    assert_eq!(s.next_id(), 0);
    let b = s.add_book(payload("X", "Y"), 3).unwrap();
    assert_eq!(b.id, 0);
}

#[test]
fn get_unassigned_id_is_not_found() {
    let mut s = fresh();
    s.add_book(payload("A", "B"), 1).unwrap();
    let msg = not_found_msg(s.get_book(7));
    assert_eq!(msg, "a book with id=7 not found");
    assert_eq!(not_found_msg(s.get_book(u64::MAX)), "a book with id=18446744073709551615 not found");
}

#[test]
fn update_changes_fields_and_keeps_identity() {
    let mut s = fresh();
    let added = s.add_book(payload("Old", "Someone"), 10).unwrap();
    let u1 = s.update_book(added.id, payload("New", "Other"), 20).unwrap();
    assert_eq!(u1.id, added.id);
    assert_eq!(u1.created_at, 10);
    assert_eq!(u1.title, "New");
    assert_eq!(u1.author, "Other");
    assert_eq!(u1.updated_at, Some(20));
    let u2 = s.update_book(added.id, payload("Newer", "Other"), 30).unwrap();
    assert_eq!(u2.updated_at, Some(30));
    assert_ne!(u2.updated_at, u1.updated_at);
    assert_eq!(u2.created_at, 10);
    assert_eq!(s.get_book(added.id).unwrap(), u2);
}

#[test]
fn update_validates_before_lookup() {
    let mut s = fresh();
    let msg = invalid_msg(s.update_book(99, payload("", "Y"), 5));
    assert_eq!(msg, "All fields must be provided and non-empty");
}

#[test]
fn update_absent_is_not_found() {
    let mut s = fresh();
    let msg = not_found_msg(s.update_book(3, payload("X", "Y"), 5));
    assert_eq!(msg, "couldn't update a book with id=3. book not found");
}

#[test]
fn delete_removes_and_second_delete_fails() {
    let mut s = fresh();
    let added = s.add_book(payload("A", "B"), 1).unwrap();
    let removed = s.delete_book(added.id).unwrap();
    assert_eq!(removed, added);
    assert_eq!(not_found_msg(s.get_book(added.id)), "a book with id=0 not found");
    assert_eq!(
        not_found_msg(s.delete_book(added.id)),
        "couldn't delete a book with id=0. book not found."
    );
}

#[test]
fn deleted_id_is_never_reused() {
    let mut s = fresh();
    let a = s.add_book(payload("A", "B"), 1).unwrap();
    s.delete_book(a.id).unwrap();
    let b = s.add_book(payload("A", "B"), 2).unwrap();
    assert_eq!(b.id, 1);
}

#[test]
fn do_insert_overwrites_at_its_id() {
    let mut s = fresh();
    let a = s.add_book(payload("A", "B"), 1).unwrap();
    let changed = Book { title: "C".to_string(), ..a.clone() };
    s.do_insert(&changed);
    assert_eq!(s._get_book(&a.id), Some(changed));
    assert_eq!(s._get_book(&5), None);
}

#[test]
fn end_to_end_dune() {
    let mut s = fresh();
    let t = 1_700_000_000_000_000_000u64;
    let added = s.add_book(payload("Dune", "Herbert"), t).unwrap();
    assert_eq!(
        added,
        Book {
            id: 0,
            title: "Dune".to_string(),
            author: "Herbert".to_string(),
            created_at: t,
            updated_at: None,
        }
    );
    let t2 = t + 1_000;
    let updated = s.update_book(0, payload("Dune (rev)", "Herbert"), t2).unwrap();
    assert_eq!(updated.id, 0);
    assert_eq!(updated.created_at, t);
    assert_eq!(updated.title, "Dune (rev)");
    assert_eq!(updated.updated_at, Some(t2));
    let removed = s.delete_book(0).unwrap();
    assert_eq!(removed, updated);
    assert!(matches!(s.get_book(0), Err(Error::NotFound { .. })));
}

#[test]
fn payload_validity() {
    assert!(payload("a", "b").is_valid());
    assert!(!payload("", "b").is_valid());
    assert!(!payload("a", "").is_valid());
}
