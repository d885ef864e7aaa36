//! A persistent store of books: a monotonic identifier allocator and an
//! ordered map from identifier to book, with create, read, update and
//! delete operations whose effects are stated and proved.
pub mod book;
pub mod model;
pub mod storage;
pub mod store;
