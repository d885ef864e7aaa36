//! The book record, the payload a caller supplies, and the error kinds.
use vstd::prelude::*;

verus! {

/// A stored book. `id` is the key it is stored under.
#[derive(Clone, Debug, PartialEq, Eq, Default)]
pub struct Book {
    pub id: u64,
    pub title: String,
    pub author: String,
    pub created_at: u64,
    pub updated_at: Option<u64>,
}

/// The mathematical value of a `Book`.
pub ghost struct BookView {
    pub id: u64,
    pub title: Seq<char>,
    pub author: Seq<char>,
    pub created_at: u64,
    pub updated_at: Option<u64>,
}

impl View for Book {
    type V = BookView;

    open spec fn view(&self) -> BookView {
        BookView {
            id: self.id,
            title: self.title@,
            author: self.author@,
            created_at: self.created_at,
            updated_at: self.updated_at,
        }
    }
}

/// The title and author a caller supplies to create or update a book.
#[derive(Clone, Debug, PartialEq, Eq, Default)]
pub struct BookPayload {
    pub title: String,
    pub author: String,
}

/// The mathematical value of a `BookPayload`.
pub ghost struct PayloadView {
    pub title: Seq<char>,
    pub author: Seq<char>,
}

impl View for BookPayload {
    type V = PayloadView;

    open spec fn view(&self) -> PayloadView {
        PayloadView { title: self.title@, author: self.author@ }
    }
}

/// A payload is accepted when neither field is empty.
pub open spec fn payload_is_valid(p: PayloadView) -> bool {
    p.title.len() > 0 && p.author.len() > 0
}

impl BookPayload {
    /// Whether neither field is empty.
    pub fn is_valid(&self) -> (r: bool)
        ensures
            r == payload_is_valid(self@),
    {
        !self.title.as_str().is_empty() && !self.author.as_str().is_empty()
    }
}

/// The two ways an operation can fail, each with a readable message.
#[derive(Clone, Debug, PartialEq, Eq)]
pub enum Error {
    NotFound { msg: String },
    InvalidInput { msg: String },
}

/// The mathematical value of an `Error`.
pub ghost enum ErrorView {
    NotFound(Seq<char>),
    InvalidInput(Seq<char>),
}

impl View for Error {
    type V = ErrorView;

    open spec fn view(&self) -> ErrorView {
        match self {
            Error::NotFound { msg } => ErrorView::NotFound(msg@),
            Error::InvalidInput { msg } => ErrorView::InvalidInput(msg@),
        }
    }
}

/// The mathematical value of an operation's result.
pub open spec fn result_view(r: Result<Book, Error>) -> Result<BookView, ErrorView> {
    match r {
        Ok(b) => Ok(b@),
        Err(e) => Err(e@),
    }
}

/// The character of a decimal digit.
pub open spec fn digit_char(d: nat) -> char
    recommends
        d < 10,
{
    seq!['0', '1', '2', '3', '4', '5', '6', '7', '8', '9'][d as int]
}

/// The decimal notation of `n`, without leading zeros.
pub open spec fn decimal(n: nat) -> Seq<char>
    decreases n,
{
    if n < 10 {
        seq![digit_char(n)]
    } else {
        decimal(n / 10).push(digit_char(n % 10))
    }
}

/// Relies on `format!` with `Display` for `u64`, which writes the decimal
/// notation of the number between the two texts.
#[verifier::external_body]
pub(crate) fn id_message(before: &str, id: u64, after: &str) -> (r: String)
    ensures
        r@ == before@ + decimal(id as nat) + after@,
{
    format!("{}{}{}", before, id, after)
}

pub open spec fn get_missing_msg(id: u64) -> Seq<char> {
    "a book with id="@ + decimal(id as nat) + " not found"@
}

pub open spec fn update_missing_msg(id: u64) -> Seq<char> {
    "couldn't update a book with id="@ + decimal(id as nat) + ". book not found"@
}

pub open spec fn delete_missing_msg(id: u64) -> Seq<char> {
    "couldn't delete a book with id="@ + decimal(id as nat) + ". book not found."@
}

pub open spec fn invalid_payload_msg() -> Seq<char> {
    "All fields must be provided and non-empty"@
}

/// The message of a failed lookup.
pub fn get_missing_message(id: u64) -> (r: String)
    ensures
        r@ == get_missing_msg(id),
{
    id_message("a book with id=", id, " not found")
}

/// The message of an update of an absent book.
pub fn update_missing_message(id: u64) -> (r: String)
    ensures
        r@ == update_missing_msg(id),
{
    id_message("couldn't update a book with id=", id, ". book not found")
}

/// The message of a deletion of an absent book.
pub fn delete_missing_message(id: u64) -> (r: String)
    ensures
        r@ == delete_missing_msg(id),
{
    id_message("couldn't delete a book with id=", id, ". book not found.")
}

/// The message of a rejected payload.
pub fn invalid_payload_message() -> (r: String)
    ensures
        r@ == invalid_payload_msg(),
{
    "All fields must be provided and non-empty".to_owned()
}

} // verus!
