use book_registry::book::{Book, BookInput};
use book_registry::registry::Registry;
use book_registry::service::{
    add_book, delete_book, get_books, Payload, STATUS_CREATED, STATUS_NOT_FOUND, STATUS_OK,
};

fn listed(reg: &Registry) -> Vec<Book> {
    match get_books(reg).body.data {
        Payload::Books(v) => v,
        _ => panic!("listing did not carry books"),
    }
}

#[test]
fn get_books_lists_every_book() {
    let reg = Registry::seeded();
    let r = get_books(&reg);
    assert_eq!(r.status, STATUS_OK);
    assert_eq!(r.status, 200);
    assert!(r.body.success);
    match r.body.data {
        Payload::Books(v) => assert_eq!(v, reg.list()),
        _ => panic!("listing did not carry books"),
    }
}

#[test]
fn get_books_on_empty_registry() {
    let reg = Registry::new();
    let r = get_books(&reg);
    assert!(r.body.success);
    assert_eq!(r.status, 200);
    assert!(listed(&reg).is_empty());
}

#[test]
fn add_book_returns_created_book() {
    let mut reg = Registry::seeded();
    let before = listed(&reg).len() as u64;
    let r = add_book(&mut reg, BookInput::new("X", "Y"));
    assert_eq!(r.status, STATUS_CREATED);
    assert_eq!(r.status, 201);
    assert!(r.body.success);
    match r.body.data {
        Payload::Book(b) => {
            assert_eq!(b.title, "X");
            assert_eq!(b.author, "Y");
            assert_eq!(b.id, before + 1);
        }
        _ => panic!("creation did not carry a book"),
    }
    assert_eq!(listed(&reg).len(), 4);
}

#[test]
fn delete_book_existing_returns_it_and_shrinks_listing() {
    let mut reg = Registry::seeded();
    let r = delete_book(&mut reg, 1);
    assert_eq!(r.status, STATUS_OK);
    assert!(r.body.success);
    match r.body.data {
        Payload::Book(b) => {
            assert_eq!(b, Book::new(1, "The Rust Programming Language", "Steve Klabnik"))
        }
        _ => panic!("deletion did not carry a book"),
    }
    let after: Vec<u64> = listed(&reg).iter().map(|b| b.id).collect();
    assert_eq!(after, vec![2, 3]);
}

#[test]
fn delete_book_missing_is_not_found() {
    let mut reg = Registry::seeded();
    let r = delete_book(&mut reg, 9999);
    assert_eq!(r.status, STATUS_NOT_FOUND);
    assert_eq!(r.status, 404);
    assert!(!r.body.success);
    match r.body.data {
        Payload::Message(m) => assert_eq!(m, "Book not found"),
        _ => panic!("failure did not carry a message"),
    }
    assert_eq!(listed(&reg), Registry::seeded().list());
}

#[test]
fn id_collides_after_delete_then_create() {
    let mut reg = Registry::seeded();
    let first = add_book(&mut reg, BookInput::new("Fourth", "A"));
    match first.body.data {
        Payload::Book(b) => assert_eq!(b.id, 4),
        _ => panic!("creation did not carry a book"),
    }
    delete_book(&mut reg, 2);
    let second = add_book(&mut reg, BookInput::new("Fifth", "B"));
    match second.body.data {
        Payload::Book(b) => assert_eq!(b.id, 4),
        _ => panic!("creation did not carry a book"),
    }
    let ids: Vec<u64> = listed(&reg).iter().map(|b| b.id).collect();
    assert_eq!(ids, vec![1, 3, 4, 4]);
}
