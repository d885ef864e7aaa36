//! The book store: an identifier allocator and a record table, both
//! persistent, composed by the four operations.
use crate::book::{
    delete_missing_message, get_missing_message, invalid_payload_message, payload_is_valid,
    result_view, update_missing_message, Book, BookPayload, BookView, Error,
};
use crate::model::{add_spec, delete_spec, get_spec, store_wf, update_spec, StoreView};
use crate::storage::{
    cell_value, region_pages, stored_update, stored_view, table_contents, BookTable, IdCell,
    MemoryRegion, StableMemory, StoredBook, StoredView,
};
use vstd::prelude::*;

verus! {

/// The book that a table entry stands for under key `id`.
pub open spec fn book_of(id: u64, v: StoredView) -> BookView {
    BookView { id, title: v.2, author: v.3, created_at: v.0, updated_at: v.1 }
}

/// The stored pair that stands for an update time.
fn update_entry(t: Option<u64>) -> (r: (u64, u64))
    ensures
        stored_update(r) == t,
{
    match t {
        Some(t) => (1, t),
        None => (0, 0),
    }
}

/// The book that a stored entry stands for under key `id`.
fn book_from_entry(id: u64, v: StoredBook) -> (r: Book)
    ensures
        r@ == book_of(id, stored_view(v)),
{
    let ((created_at, (updated, updated_at)), title, author) = v;
    let updated_at = if updated == 0 {
        None
    } else {
        Some(updated_at)
    };
    Book { id, title, author, created_at, updated_at }
}

/// The virtual region of the stable memory that holds the identifier counter.
pub const COUNTER_REGION: u8 = 0;

/// The virtual region of the stable memory that holds the books.
pub const BOOKS_REGION: u8 = 1;

/// The allocator's counter and the table of books, both persistent.
pub struct BookStore {
    counter: IdCell,
    books: BookTable,
}

impl View for BookStore {
    type V = StoreView;

    /// The counter's value, and each table entry read as the book stored
    /// under its key.
    closed spec fn view(&self) -> StoreView {
        StoreView {
            next_id: cell_value(self.counter),
            books: Map::new(
                |k: u64| table_contents(self.books).contains_key(k),
                |k: u64| book_of(k, table_contents(self.books)[k]),
            ),
        }
    }
}

impl BookStore {
    /// Every stored identifier is below the counter.
    pub open spec fn wf(&self) -> bool {
        store_wf(self@)
    }

    /// Puts a counter and a table together as a store, when every key of
    /// the table is below the counter; `None` otherwise.
    pub fn from_parts(counter: IdCell, books: BookTable) -> (r: Option<BookStore>)
        ensures
            r is Some <==> (forall|k: u64| #[trigger]
                table_contents(books).contains_key(k) ==> k < cell_value(counter)),
            r matches Some(s) ==> {
                &&& s.wf()
                &&& s@.next_id == cell_value(counter)
                &&& s@.books.dom() == table_contents(books).dom()
                &&& forall|k: u64| #[trigger]
                    s@.books.contains_key(k) ==> s@.books[k] == book_of(
                        k,
                        table_contents(books)[k],
                    )
            },
    {
        let next = counter.get();
        match books.last_key() {
            Some(k) => {
                if k >= next {
                    return None;
                }
            },
            None => {},
        }
        let store = BookStore { counter, books };
        assert forall|k: u64| #[trigger] store@.books.contains_key(k) implies k < store@.next_id
            && store@.books[k].id == k by {
            assert(table_contents(store.books).contains_key(k));
        }
        assert(store@.books.dom() =~= table_contents(books).dom());
        Some(store)
    }

    /// Opens the store kept in the two regions, with the counter starting
    /// at 0 where the counter's region holds none. Where neither region has
    /// a page yet, a store that is opened is empty with its counter at 0.
    /// `None` when the counter cannot be opened, or when a stored identifier
    /// is not below the counter (see `from_parts`).
    pub fn open_regions(counter_region: MemoryRegion, books_region: MemoryRegion) -> (r: Option<
        BookStore,
    >)
        ensures
            r matches Some(s) ==> s.wf(),
            r matches Some(s) ==> (region_pages(counter_region) == 0 && region_pages(books_region)
                == 0 ==> s@.next_id == 0 && s@.books == Map::<u64, BookView>::empty()),
    {
        let ghost books_fresh = region_pages(books_region) == 0;
        let counter = match IdCell::init(counter_region, 0) {
            Some(c) => c,
            None => {
                return None;
            },
        };
        let books = BookTable::init(books_region);
        let r = BookStore::from_parts(counter, books);
        proof {
            if r is Some && books_fresh {
                assert(r->Some_0@.books =~= Map::<u64, BookView>::empty());
            }
        }
        r
    }

    /// Opens the store kept in the process's stable memory (regions
    /// `COUNTER_REGION` and `BOOKS_REGION`), creating an empty one with the
    /// counter at 0 where none is kept yet; see `open_regions`. Every store
    /// opened this way writes the same stable memory, so a process opens
    /// one and keeps it.
    pub fn init() -> (r: Option<BookStore>)
        ensures
            r matches Some(s) ==> s.wf(),
    {
        let memory = StableMemory::open();
        BookStore::open_regions(memory.region(COUNTER_REGION), memory.region(BOOKS_REGION))
    }

    /// The identifier the next created book receives.
    pub fn next_id(&self) -> (r: u64)
        ensures
            r == self@.next_id,
    {
        self.counter.get()
    }

    /// The book stored at `id`, if any.
    pub fn _get_book(&self, id: &u64) -> (r: Option<Book>)
        ensures
            match r {
                Some(b) => self@.books.contains_key(*id) && b@ == self@.books[*id],
                None => !self@.books.contains_key(*id),
            },
    {
        match self.books.get(*id) {
            Some(v) => Some(book_from_entry(*id, v)),
            None => None,
        }
    }

    /// Puts `book` at its own identifier, replacing what was there. The
    /// identifier must be one the allocator handed out already (below the
    /// counter): identifiers come from the allocator alone, which keeps the
    /// store's invariant.
    pub fn do_insert(&mut self, book: &Book)
        requires
            old(self).wf(),
            book.id < old(self)@.next_id,
        ensures
            final(self).wf(),
            final(self)@ == (StoreView { books: old(self)@.books.insert(book.id, book@), ..old(self)@ }),
    {
        let entry: StoredBook = (
            (book.created_at, update_entry(book.updated_at)),
            book.title.clone(),
            book.author.clone(),
        );
        let _ = self.books.insert(book.id, entry);
        assert(self@.books =~= old(self)@.books.insert(book.id, book@));
    }

    /// The book stored at `id`, or `NotFound`.
    pub fn get_book(&self, id: u64) -> (r: Result<Book, Error>)
        ensures
            result_view(r) == get_spec(self@, id),
    {
        match self._get_book(&id) {
            Some(book) => Ok(book),
            None => Err(Error::NotFound { msg: get_missing_message(id) }),
        }
    }

    /// Creates a book from `payload`, stamped with `now`, under a fresh
    /// identifier: the counter's value, which then advances by one. An empty
    /// title or author is rejected before anything changes.
    pub fn add_book(&mut self, payload: BookPayload, now: u64) -> (r: Result<Book, Error>)
        requires
            old(self).wf(),
            payload_is_valid(payload@) ==> old(self)@.next_id < u64::MAX,
        ensures
            final(self).wf(),
            (final(self)@, result_view(r)) == add_spec(old(self)@, payload@, now),
    {
        if !payload.is_valid() {
            return Err(Error::InvalidInput { msg: invalid_payload_message() });
        }
        let current = self.counter.get();
        let id = self.counter.set(current + 1);
        assert(self@.books == old(self)@.books);
        let book = Book {
            id,
            title: payload.title,
            author: payload.author,
            created_at: now,
            updated_at: None,
        };
        self.do_insert(&book);
        Ok(book)
    }

    /// Replaces the title and author of the book at `id` and stamps it as
    /// updated at `now`; its identifier and creation time stay. The payload
    /// is checked first: an empty field is `InvalidInput` whether or not the
    /// book exists. Then an absent book is `NotFound`.
    pub fn update_book(&mut self, id: u64, payload: BookPayload, now: u64) -> (r: Result<
        Book,
        Error,
    >)
        requires
            old(self).wf(),
        ensures
            final(self).wf(),
            (final(self)@, result_view(r)) == update_spec(old(self)@, id, payload@, now),
    {
        if !payload.is_valid() {
            return Err(Error::InvalidInput { msg: invalid_payload_message() });
        }
        match self._get_book(&id) {
            Some(mut book) => {
                book.title = payload.title;
                book.author = payload.author;
                book.updated_at = Some(now);
                self.do_insert(&book);
                Ok(book)
            },
            None => Err(Error::NotFound { msg: update_missing_message(id) }),
        }
    }

    /// Removes the book at `id` and hands it back, or `NotFound`. The
    /// counter is untouched, so the identifier is never handed out again.
    pub fn delete_book(&mut self, id: u64) -> (r: Result<Book, Error>)
        requires
            old(self).wf(),
        ensures
            final(self).wf(),
            (final(self)@, result_view(r)) == delete_spec(old(self)@, id),
    {
        let removed = self.books.remove(id);
        assert(self@.books =~= old(self)@.books.remove(id));
        match removed {
            Some(v) => {
                let book = book_from_entry(id, v);
                Ok(book)
            },
            None => {
                assert(self@.books =~= old(self)@.books);
                Err(Error::NotFound { msg: delete_missing_message(id) })
            },
        }
    }
}

} // verus!
