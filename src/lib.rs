//! An in-memory registry of books, and the request handlers that list, add
//! and delete its records and wrap each result in a uniform envelope.
pub mod book;
pub mod registry;
pub mod service;
