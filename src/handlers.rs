use vstd::prelude::*;
use crate::clock::current_time;
use crate::db::{book_result, create_spec, delete_spec, list_spec, update_spec, Db, DbView};
use crate::error::ApiError;
use crate::model::{book, valid_payload, views_of, BookPayload, BookView, PayloadView, Timestamp};

verus! {

/// The view of a request body; `None` stands for a missing or malformed one.
pub open spec fn body_view(body: Option<BookPayload>) -> Option<PayloadView> {
    match body {
        Some(p) => Some(p@),
        None => None,
    }
}

/// Whether a request body is present and describes a valid record.
pub open spec fn acceptable(body: Option<PayloadView>) -> bool {
    match body {
        Some(p) => valid_payload(p),
        None => false,
    }
}

/// Create: a missing or invalid body is a validation error; otherwise the
/// store inserts the record.
pub open spec fn create_request_spec(s: DbView, body: Option<PayloadView>, at: Timestamp) -> (DbView, Result<BookView, ApiError>) {
    if acceptable(body) {
        create_spec(s, body.unwrap(), at)
    } else {
        (s, Err(ApiError::Validation))
    }
}

/// Edit: a missing or invalid body is a validation error; otherwise the
/// store overwrites the record, or reports that there is none.
pub open spec fn edit_request_spec(s: DbView, id: Seq<char>, body: Option<PayloadView>) -> (DbView, Result<(), ApiError>) {
    if acceptable(body) {
        update_spec(s, id, body.unwrap())
    } else {
        (s, Err(ApiError::Validation))
    }
}

fn checked_payload(body: Option<BookPayload>) -> (r: Result<BookPayload, ApiError>)
    ensures
        acceptable(body_view(body)) ==> r == Ok::<BookPayload, ApiError>(body.unwrap()),
        !acceptable(body_view(body)) ==> r == Err::<BookPayload, ApiError>(ApiError::Validation),
{
    match body {
        Some(p) => {
            if p.is_valid() {
                Ok(p)
            } else {
                Err(ApiError::Validation)
            }
        }
        None => Err(ApiError::Validation),
    }
}

/// Creates a record from the request body, with creation time `now`.
pub fn create_book_at(db: &mut Db, body: Option<BookPayload>, now: Timestamp) -> (r: Result<book, ApiError>)
    requires
        old(db).wf(),
    ensures
        final(db).wf(),
        (final(db)@, book_result(r)) == create_request_spec(old(db)@, body_view(body), now),
{
    match checked_payload(body) {
        Ok(p) => db.create_book(p, now),
        Err(e) => Err(e),
    }
}

/// Creates a record from the request body, stamped with the current time.
pub fn create_book_handler(db: &mut Db, body: Option<BookPayload>) -> (r: Result<book, ApiError>)
    requires
        old(db).wf(),
    ensures
        final(db).wf(),
        exists|t: Timestamp| t.wf() && (final(db)@, book_result(r)) == create_request_spec(old(db)@, body_view(body), t),
{
    let now = current_time();
    create_book_at(db, body, now)
}

/// Replaces the content fields of the record `id` with the request body.
pub fn edit_book_handler(db: &mut Db, id: &String, body: Option<BookPayload>) -> (r: Result<(), ApiError>)
    requires
        old(db).wf(),
    ensures
        final(db).wf(),
        (final(db)@, r) == edit_request_spec(old(db)@, id@, body_view(body)),
{
    match checked_payload(body) {
        Ok(p) => db.edit_book(id, p),
        Err(e) => Err(e),
    }
}

/// Removes the record `id`.
pub fn delete_book_handler(db: &mut Db, id: &String) -> (r: Result<(), ApiError>)
    requires
        old(db).wf(),
    ensures
        final(db).wf(),
        (final(db)@, r) == delete_spec(old(db)@, id@),
{
    db.delete_book(id)
}

/// Lists every record.
pub fn list_books_handler(db: &Db) -> (r: Vec<book>)
    requires
        db.wf(),
    ensures
        views_of(r@) == list_spec(db@),
{
    db.fetch_books()
}

} // verus!
