use book_api::error::ApiError;
use book_api::handlers::{
    create_book_at, create_book_handler, delete_book_handler, edit_book_handler, list_books_handler,
};
use book_api::model::{decimal_string, BookPayload, Timestamp};
use book_api::router::{dispatch_at, handle_request, route, Method, Reply, Route};
use book_api::Db;

fn payload(name: &str, author: &str, pages: usize, tags: &[&str]) -> BookPayload {
    BookPayload {
        name: name.to_string(),
        author: author.to_string(),
        num_pages: pages,
        tags: tags.iter().map(|t| t.to_string()).collect(),
    }
}

fn at(secs: i64) -> Timestamp {
    Timestamp { secs, nanos: 0 }
}

#[test]
fn post_then_get_returns_the_one_record() {
    let mut db = Db::init();
    let before = chrono::Utc::now().timestamp();
    let reply = handle_request(&mut db, Method::Post, "/book", Some(payload("Dune", "Herbert", 412, &["scifi"])));
    let after = chrono::Utc::now().timestamp();
    assert_eq!(reply.status(), 200);
    let created = match reply {
        Reply::Created(b) => b,
        other => panic!("unexpected reply {:?}", other),
    };
    assert!(!created.id.is_empty());
    assert_eq!(created.name, "Dune");
    assert_eq!(created.author, "Herbert");
    assert_eq!(created.num_pages, 412);
    assert_eq!(created.tags, vec!["scifi".to_string()]);
    assert!(before <= created.added_at.secs && created.added_at.secs <= after);
    assert!(created.added_at.nanos < 1_000_000_000);

    let listing = handle_request(&mut db, Method::Get, "/book", None);
    assert_eq!(listing.status(), 200);
    match listing {
        Reply::Listing(books) => {
            assert_eq!(books.len(), 1);
            assert_eq!(books[0].id, created.id);
            assert_eq!(books[0].name, "Dune");
            assert_eq!(books[0].added_at, created.added_at);
        }
        other => panic!("unexpected reply {:?}", other),
    }
}

#[test]
fn identifiers_are_sequential_decimals() {
    let mut db = Db::init();
    let a = create_book_at(&mut db, Some(payload("A", "x", 1, &[])), at(10)).unwrap();
    let b = create_book_at(&mut db, Some(payload("B", "y", 2, &[])), at(20)).unwrap();
    assert_eq!(a.id, "0");
    assert_eq!(b.id, "1");
    assert_eq!(a.added_at, at(10));
    assert_eq!(b.added_at, at(20));
}

#[test]
fn decimal_notation() {
    assert_eq!(decimal_string(0), "0");
    assert_eq!(decimal_string(7), "7");
    assert_eq!(decimal_string(10), "10");
    assert_eq!(decimal_string(1234567890), "1234567890");
    assert_eq!(decimal_string(u64::MAX), "18446744073709551615");
}

#[test]
fn create_handler_stamps_current_time() {
    let mut db = Db::init();
    let b = create_book_handler(&mut db, Some(payload("Emma", "Austen", 474, &[]))).unwrap();
    // Well after 2020-09-13.
    assert!(b.added_at.secs > 1_600_000_000);
}

#[test]
fn create_rejects_missing_or_unnamed_body() {
    let mut db = Db::init();
    assert_eq!(create_book_at(&mut db, None, at(1)).unwrap_err(), ApiError::Validation);
    assert_eq!(create_book_at(&mut db, Some(payload("", "x", 1, &[])), at(1)).unwrap_err(), ApiError::Validation);
    assert!(list_books_handler(&db).is_empty());
    let reply = dispatch_at(&mut db, Method::Post, "/book", None, at(1));
    assert_eq!(reply.status(), 400);
}

#[test]
fn edit_missing_id_is_not_found_and_changes_nothing() {
    let mut db = Db::init();
    create_book_at(&mut db, Some(payload("Dune", "Herbert", 412, &[])), at(5)).unwrap();
    let reply = dispatch_at(&mut db, Method::Put, "/book/42", Some(payload("X", "Y", 1, &[])), at(6));
    assert_eq!(reply.status(), 404);
    assert!(matches!(reply, Reply::Failure(ApiError::NotFound)));
    let books = list_books_handler(&db);
    assert_eq!(books.len(), 1);
    assert_eq!(books[0].name, "Dune");
    assert_eq!(books[0].num_pages, 412);
}

#[test]
fn edit_replaces_content_and_keeps_added_at() {
    let mut db = Db::init();
    let b = create_book_at(&mut db, Some(payload("Dune", "Herbert", 412, &["scifi"])), at(100)).unwrap();
    let r = edit_book_handler(&mut db, &b.id, Some(payload("Dune Messiah", "F. Herbert", 256, &["scifi", "sequel"])));
    assert_eq!(r, Ok(()));
    let books = list_books_handler(&db);
    assert_eq!(books.len(), 1);
    assert_eq!(books[0].id, b.id);
    assert_eq!(books[0].name, "Dune Messiah");
    assert_eq!(books[0].author, "F. Herbert");
    assert_eq!(books[0].num_pages, 256);
    assert_eq!(books[0].tags, vec!["scifi".to_string(), "sequel".to_string()]);
    assert_eq!(books[0].added_at, at(100));
}

#[test]
fn edit_with_invalid_body_is_validation_error() {
    let mut db = Db::init();
    let b = create_book_at(&mut db, Some(payload("Dune", "Herbert", 412, &[])), at(1)).unwrap();
    assert_eq!(edit_book_handler(&mut db, &b.id, Some(payload("", "x", 1, &[]))), Err(ApiError::Validation));
    assert_eq!(edit_book_handler(&mut db, &b.id, None), Err(ApiError::Validation));
    assert_eq!(list_books_handler(&db)[0].name, "Dune");
}

#[test]
fn delete_then_list_omits_the_id() {
    let mut db = Db::init();
    let a = create_book_at(&mut db, Some(payload("A", "x", 1, &[])), at(1)).unwrap();
    let b = create_book_at(&mut db, Some(payload("B", "y", 2, &[])), at(2)).unwrap();
    let reply = dispatch_at(&mut db, Method::Delete, &format!("/book/{}", a.id), None, at(3));
    assert_eq!(reply.status(), 200);
    assert!(matches!(reply, Reply::Done));
    let books = list_books_handler(&db);
    assert_eq!(books.len(), 1);
    assert_eq!(books[0].id, b.id);
    let c = create_book_at(&mut db, Some(payload("C", "z", 3, &[])), at(4)).unwrap();
    assert_ne!(c.id, a.id);
    assert!(list_books_handler(&db).iter().all(|x| x.id != a.id));
}

#[test]
fn delete_missing_id_is_not_found() {
    let mut db = Db::init();
    assert_eq!(delete_book_handler(&mut db, &"7".to_string()), Err(ApiError::NotFound));
    let reply = dispatch_at(&mut db, Method::Delete, "/book/7", None, at(1));
    assert_eq!(reply.status(), 404);
}

#[test]
fn routing_table() {
    assert!(matches!(route(Method::Post, "/book"), Route::CreateBook));
    assert!(matches!(route(Method::Get, "/book"), Route::ListBooks));
    assert!(matches!(route(Method::Put, "/book/12"), Route::EditBook(id) if id == "12"));
    assert!(matches!(route(Method::Delete, "/book/ab"), Route::DeleteBook(id) if id == "ab"));
    assert!(matches!(route(Method::Delete, "/book"), Route::NoMatch));
    assert!(matches!(route(Method::Get, "/book/1"), Route::NoMatch));
    assert!(matches!(route(Method::Put, "/book/"), Route::NoMatch));
    assert!(matches!(route(Method::Put, "/book/1/2"), Route::NoMatch));
    assert!(matches!(route(Method::Get, "/books"), Route::NoMatch));
    assert!(matches!(route(Method::Get, "/"), Route::NoMatch));
    assert!(matches!(route(Method::Other, "/book"), Route::NoMatch));
}

#[test]
fn unmatched_route_is_404() {
    let mut db = Db::init();
    let reply = dispatch_at(&mut db, Method::Get, "/authors", None, at(1));
    assert!(matches!(reply, Reply::Failure(ApiError::NoRoute)));
    assert_eq!(reply.status(), 404);
}

#[test]
fn error_translation() {
    assert_eq!(ApiError::Validation.status_code(), 400);
    assert_eq!(ApiError::NotFound.status_code(), 404);
    assert_eq!(ApiError::Storage.status_code(), 500);
    assert_eq!(ApiError::NoRoute.status_code(), 404);
    assert_eq!(ApiError::Validation.message(), "invalid request body");
    assert_eq!(ApiError::NotFound.message(), "book not found");
    assert_eq!(ApiError::Storage.message(), "storage failure");
    assert_eq!(ApiError::NoRoute.message(), "not found");
}

#[test]
fn empty_store_lists_nothing() {
    let db = Db::init();
    assert!(list_books_handler(&db).is_empty());
}

#[test]
fn deleted_id_stays_gone_across_later_requests() {
    let mut db = Db::init();
    let a = create_book_at(&mut db, Some(payload("A", "x", 1, &[])), at(1)).unwrap();
    assert_eq!(delete_book_handler(&mut db, &a.id), Ok(()));
    for n in 0..25 {
        let b = create_book_at(&mut db, Some(payload("B", "y", n, &[])), at(2)).unwrap();
        assert_ne!(b.id, a.id);
        assert_eq!(edit_book_handler(&mut db, &b.id, Some(payload("C", "z", n + 1, &[]))), Ok(()));
        assert_eq!(edit_book_handler(&mut db, &a.id, Some(payload("C", "z", 1, &[]))), Err(ApiError::NotFound));
    }
    let listing = dispatch_at(&mut db, Method::Get, "/book", None, at(3));
    match listing {
        Reply::Listing(books) => {
            assert_eq!(books.len(), 25);
            assert!(books.iter().all(|x| x.id != a.id));
        }
        other => panic!("unexpected reply {:?}", other),
    }
}
