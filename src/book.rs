use vstd::prelude::*;

verus! {

/// A stored book. Its `id` is assigned by the registry when it is created.
#[derive(Debug, PartialEq, Eq)]
pub struct Book {
    pub id: u64,
    pub title: String,
    pub author: String,
}

impl Clone for Book {
    fn clone(&self) -> (r: Self)
        ensures
            r == *self,
    {
        Book { id: self.id, title: self.title.clone(), author: self.author.clone() }
    }
}

impl Book {
    pub fn new(id: u64, title: &str, author: &str) -> (r: Book)
        ensures
            r.id == id,
            r.title@ == title@,
            r.author@ == author@,
    {
        Book { id, title: title.to_owned(), author: author.to_owned() }
    }
}

/// What a client sends to create a book: everything but the id.
#[derive(Debug, PartialEq, Eq)]
pub struct BookInput {
    pub title: String,
    pub author: String,
}

impl BookInput {
    pub fn new(title: &str, author: &str) -> (r: BookInput)
        ensures
            r.title@ == title@,
            r.author@ == author@,
    {
        BookInput { title: title.to_owned(), author: author.to_owned() }
    }
}

} // verus!
