use vstd::prelude::*;
use crate::book::{Book, BookInput};

verus! {

/// Does some book of `s` carry `id`?
pub open spec fn contains_id(s: Seq<Book>, id: u64) -> bool {
    exists|i: int| 0 <= i < s.len() && #[trigger] s[i].id == id
}

/// Is `i` the position of the first book of `s` that carries `id`?
pub open spec fn is_first_with_id(s: Seq<Book>, id: u64, i: int) -> bool {
    &&& 0 <= i < s.len()
    &&& s[i].id == id
    &&& forall|j: int| 0 <= j < i ==> #[trigger] s[j].id != id
}

/// The book that `create` appends to `s` for `input`: it is numbered one
/// past the current count.
pub open spec fn created_book(s: Seq<Book>, input: BookInput) -> Book {
    Book { id: (s.len() + 1) as u64, title: input.title, author: input.author }
}

/// How a deletion of `id` from `before` may end: with the first book that
/// carries `id` taken out and handed back, or, where none does, with
/// nothing handed back and nothing changed.
pub open spec fn delete_outcome(before: Seq<Book>, id: u64, r: Option<Book>, after: Seq<Book>) -> bool {
    match r {
        Some(b) => exists|i: int|
            is_first_with_id(before, id, i) && b == before[i] && after == before.remove(i),
        None => !contains_id(before, id) && after == before,
    }
}

/// The books held at start-up, in order.
pub open spec fn is_seed(s: Seq<Book>) -> bool {
    &&& s.len() == 3
    &&& s[0].id == 1
    &&& s[0].title@ == "The Rust Programming Language"@
    &&& s[0].author@ == "Steve Klabnik"@
    &&& s[1].id == 2
    &&& s[1].title@ == "Programming Rust"@
    &&& s[1].author@ == "Jim Blandy"@
    &&& s[2].id == 3
    &&& s[2].title@ == "Rust in Action"@
    &&& s[2].author@ == "Tim McNamara"@
}

/// The in-memory collection of books, in insertion order.
pub struct Registry {
    books: Vec<Book>,
}

impl View for Registry {
    type V = Seq<Book>;

    closed spec fn view(&self) -> Seq<Book> {
        self.books@
    }
}

impl Registry {
    /// An empty registry.
    pub fn new() -> (r: Registry)
        ensures
            r@ == Seq::<Book>::empty(),
    {
        Registry { books: Vec::new() }
    }

    /// The registry that the service starts with: three sample books.
    pub fn seeded() -> (r: Registry)
        ensures
            is_seed(r@),
    {
        let mut books: Vec<Book> = Vec::new();
        books.push(Book::new(1, "The Rust Programming Language", "Steve Klabnik"));
        books.push(Book::new(2, "Programming Rust", "Jim Blandy"));
        books.push(Book::new(3, "Rust in Action", "Tim McNamara"));
        Registry { books }
    }

    /// The number of books stored.
    pub fn len(&self) -> (r: usize)
        ensures
            r == self@.len(),
    {
        self.books.len()
    }

    /// A copy of every book, in order.
    pub fn list(&self) -> (r: Vec<Book>)
        ensures
            r@ == self@,
    {
        let mut out: Vec<Book> = Vec::new();
        let mut i: usize = 0;
        while i < self.books.len()
            invariant
                i <= self.books@.len(),
                out@ == self.books@.subrange(0, i as int),
            decreases self.books@.len() - i,
        {
            out.push(self.books[i].clone());
            i = i + 1;
        }
        assert(self.books@.subrange(0, self.books@.len() as int) == self.books@);
        out
    }

    /// Appends a book made from `input`, numbered one past the current
    /// count, and returns it.
    pub fn create(&mut self, input: BookInput) -> (r: Book)
        requires
            old(self)@.len() < u64::MAX,
        ensures
            r == created_book(old(self)@, input),
            final(self)@ == old(self)@.push(r),
    {
        let book = Book {
            id: self.books.len() as u64 + 1,
            title: input.title,
            author: input.author,
        };
        self.books.push(book.clone());
        book
    }

    /// The position of the first book that carries `id`, if any.
    pub fn position(&self, id: u64) -> (r: Option<usize>)
        ensures
            match r {
                Some(i) => is_first_with_id(self@, id, i as int),
                None => !contains_id(self@, id),
            },
    {
        let mut i: usize = 0;
        while i < self.books.len()
            invariant
                i <= self.books@.len(),
                forall|j: int| 0 <= j < i ==> #[trigger] self.books@[j].id != id,
            decreases self.books@.len() - i,
        {
            if self.books[i].id == id {
                return Some(i);
            }
            i = i + 1;
        }
        None
    }

    /// Removes the first book that carries `id` and returns it; returns
    /// `None`, and changes nothing, where no book carries it.
    pub fn delete(&mut self, id: u64) -> (r: Option<Book>)
        ensures
            r is Some <==> contains_id(old(self)@, id),
            delete_outcome(old(self)@, id, r, final(self)@),
    {
        match self.position(id) {
            Some(i) => {
                let b = self.books.remove(i);
                Some(b)
            },
            None => None,
        }
    }
}

} // verus!
