use vstd::prelude::*;
use crate::book::{Book, BookInput};
use crate::registry::{Registry, contains_id, created_book, delete_outcome, is_first_with_id};

verus! {

/// The HTTP status of a successful read or deletion.
pub const STATUS_OK: u16 = 200;

/// The HTTP status of a successful creation.
pub const STATUS_CREATED: u16 = 201;

/// The HTTP status of a deletion whose id is not stored.
pub const STATUS_NOT_FOUND: u16 = 404;

/// The text that a failed deletion carries as its payload.
pub open spec fn not_found_message() -> Seq<char> {
    "Book not found"@
}

/// The uniform envelope of every response body: whether the request
/// succeeded, and its payload.
pub struct ApiResponse<T> {
    pub success: bool,
    pub data: T,
}

/// What an envelope carries: the books listed, the book created or
/// deleted, or an error message.
pub enum Payload {
    Books(Vec<Book>),
    Book(Book),
    Message(String),
}

/// A response: its HTTP status and its body.
pub struct Reply {
    pub status: u16,
    pub body: ApiResponse<Payload>,
}

/// Handles `GET /books`: every book stored, in order.
pub fn get_books(registry: &Registry) -> (r: Reply)
    ensures
        r.status == STATUS_OK,
        r.body.success,
        match r.body.data {
            Payload::Books(v) => v@ == registry@ && v@.len() == registry@.len(),
            _ => false,
        },
{
    let books = registry.list();
    Reply { status: STATUS_OK, body: ApiResponse { success: true, data: Payload::Books(books) } }
}

/// Handles `POST /books`: stores a book made from `input`, numbered one past
/// the count before the call, and returns it.
pub fn add_book(registry: &mut Registry, input: BookInput) -> (r: Reply)
    requires
        old(registry)@.len() < u64::MAX,
    ensures
        r.status == STATUS_CREATED,
        r.body.success,
        match r.body.data {
            Payload::Book(b) => b == created_book(old(registry)@, input),
            _ => false,
        },
        final(registry)@ == old(registry)@.push(created_book(old(registry)@, input)),
{
    let book = registry.create(input);
    Reply { status: STATUS_CREATED, body: ApiResponse { success: true, data: Payload::Book(book) } }
}

/// Handles `DELETE /books/{id}`: takes out the first book that carries `id`
/// and returns it, or answers "not found" and changes nothing.
pub fn delete_book(registry: &mut Registry, id: u64) -> (r: Reply)
    ensures
        contains_id(old(registry)@, id) ==> {
            &&& r.status == STATUS_OK
            &&& r.body.success
            &&& match r.body.data {
                Payload::Book(b) => delete_outcome(old(registry)@, id, Some(b), final(registry)@),
                _ => false,
            }
        },
        !contains_id(old(registry)@, id) ==> {
            &&& r.status == STATUS_NOT_FOUND
            &&& !r.body.success
            &&& match r.body.data {
                Payload::Message(m) => m@ == not_found_message(),
                _ => false,
            }
            &&& final(registry)@ == old(registry)@
        },
{
    match registry.delete(id) {
        Some(book) => Reply {
            status: STATUS_OK,
            body: ApiResponse { success: true, data: Payload::Book(book) },
        },
        None => Reply {
            status: STATUS_NOT_FOUND,
            body: ApiResponse { success: false, data: Payload::Message("Book not found".to_owned()) },
        },
    }
}

/// Deleting an id that is stored takes out one book, the first that carries
/// the id, and hands it back: a listing made afterwards is one book shorter
/// and keeps the others in their order.
pub proof fn delete_existing_removes_one(
    before: Seq<Book>,
    id: u64,
    r: Option<Book>,
    after: Seq<Book>,
)
    requires
        contains_id(before, id),
        delete_outcome(before, id, r, after),
    ensures
        r is Some,
        r->0.id == id,
        after.len() == before.len() - 1,
        exists|i: int|
            is_first_with_id(before, id, i) && after == before.subrange(0, i) + before.subrange(
                i + 1,
                before.len() as int,
            ),
{
    let i = choose|i: int| is_first_with_id(before, id, i) && r->0 == before[i] && after == before.remove(i);
    assert(after =~= before.subrange(0, i) + before.subrange(i + 1, before.len() as int));
}

/// Deleting an id that is not stored hands nothing back and leaves the
/// books as they were.
pub proof fn delete_missing_changes_nothing(
    before: Seq<Book>,
    id: u64,
    r: Option<Book>,
    after: Seq<Book>,
)
    requires
        !contains_id(before, id),
        delete_outcome(before, id, r, after),
    ensures
        r is None,
        after == before,
{
}

/// Ids are taken from the count, so they can repeat. Where the last book is
/// numbered with the count (as it is while nothing has been deleted),
/// deleting a book that carries another id and then creating one gives the
/// new book the id of the last book, which is still stored.
pub proof fn id_reused_after_delete(
    before: Seq<Book>,
    id: u64,
    r: Option<Book>,
    after: Seq<Book>,
    input: BookInput,
)
    requires
        before.len() > 0,
        before.last().id == before.len(),
        id != before.last().id,
        contains_id(before, id),
        delete_outcome(before, id, r, after),
    ensures
        after.len() > 0,
        after.last() == before.last(),
        created_book(after, input).id == before.last().id,
        contains_id(after, created_book(after, input).id),
{
    let i = choose|i: int| is_first_with_id(before, id, i) && r->0 == before[i] && after == before.remove(i);
    assert(i < before.len() - 1);
    assert(after[after.len() - 1] == before[before.len() - 1]);
}

} // verus!
