use vstd::prelude::*;
use crate::clock::current_time;
use crate::db::{delete_spec, list_spec, Db, DbView};
use crate::error::{error_status, ApiError};
use crate::handlers::{
    body_view, create_book_at, create_request_spec, delete_book_handler, edit_book_handler,
    edit_request_spec, list_books_handler,
};
use crate::model::{book, views_of, BookPayload, BookView, PayloadView, Timestamp};

verus! {

/// The HTTP methods the service tells apart.
#[derive(Debug, Clone, Copy, PartialEq, Eq, Structural)]
pub enum Method {
    Get,
    Post,
    Put,
    Delete,
    Other,
}

/// The handler a request is sent to, with the identifier taken from the path.
#[derive(Debug)]
pub enum Route {
    CreateBook,
    EditBook(String),
    DeleteBook(String),
    ListBooks,
    NoMatch,
}

pub enum RouteView {
    CreateBook,
    EditBook(Seq<char>),
    DeleteBook(Seq<char>),
    ListBooks,
    NoMatch,
}

impl View for Route {
    type V = RouteView;

    open spec fn view(&self) -> RouteView {
        match self {
            Route::CreateBook => RouteView::CreateBook,
            Route::EditBook(id) => RouteView::EditBook(id@),
            Route::DeleteBook(id) => RouteView::DeleteBook(id@),
            Route::ListBooks => RouteView::ListBooks,
            Route::NoMatch => RouteView::NoMatch,
        }
    }
}

/// The path of the collection, `/book`.
pub open spec fn collection_path() -> Seq<char> {
    seq!['/', 'b', 'o', 'o', 'k']
}

/// The path of one record, `/book/{id}`.
pub open spec fn item_path(id: Seq<char>) -> Seq<char> {
    collection_path().push('/') + id
}

/// A single, non-empty path segment.
pub open spec fn is_segment(id: Seq<char>) -> bool {
    id.len() > 0 && forall|i: int| 0 <= i < id.len() ==> id[i] != '/'
}

/// The routing table: POST and GET on `/book`, PUT and DELETE on `/book/{id}`.
pub open spec fn route_spec(m: Method, p: Seq<char>) -> RouteView {
    if p == collection_path() {
        match m {
            Method::Post => RouteView::CreateBook,
            Method::Get => RouteView::ListBooks,
            _ => RouteView::NoMatch,
        }
    } else if p.len() > 6 && p.subrange(0, 6) == collection_path().push('/') && is_segment(p.subrange(6, p.len() as int)) {
        match m {
            Method::Put => RouteView::EditBook(p.subrange(6, p.len() as int)),
            Method::Delete => RouteView::DeleteBook(p.subrange(6, p.len() as int)),
            _ => RouteView::NoMatch,
        }
    } else {
        RouteView::NoMatch
    }
}

fn starts_with_collection(path: &str, len: usize) -> (r: bool)
    requires
        len == path@.len(),
    ensures
        r == (len >= 5 && path@.subrange(0, 5) == collection_path()),
{
    if len < 5 {
        return false;
    }
    let r = path.get_char(0) == '/' && path.get_char(1) == 'b' && path.get_char(2) == 'o'
        && path.get_char(3) == 'o' && path.get_char(4) == 'k';
    if r {
        assert(path@.subrange(0, 5) =~= collection_path());
    } else {
        assert(path@.subrange(0, 5) != collection_path()) by {
            if path@.subrange(0, 5) == collection_path() {
                assert(path@.subrange(0, 5)[0] == '/');
                assert(path@.subrange(0, 5)[1] == 'b');
                assert(path@.subrange(0, 5)[2] == 'o');
                assert(path@.subrange(0, 5)[3] == 'o');
                assert(path@.subrange(0, 5)[4] == 'k');
            }
        }
    }
    r
}

fn segment_free_of_slash(s: &str) -> (r: bool)
    ensures
        r == (forall|i: int| 0 <= i < s@.len() ==> s@[i] != '/'),
{
    let n = s.unicode_len();
    let mut i: usize = 0;
    while i < n
        invariant
            n == s@.len(),
            i <= n,
            forall|j: int| 0 <= j < i ==> s@[j] != '/',
        decreases n - i,
    {
        if s.get_char(i) == '/' {
            return false;
        }
        i = i + 1;
    }
    true
}

/// Matches a method and a path against the routing table.
pub fn route(method: Method, path: &str) -> (r: Route)
    ensures
        r@ == route_spec(method, path@),
{
    let len = path.unicode_len();
    let prefix = starts_with_collection(path, len);
    if prefix && len == 5 {
        assert(path@ =~= collection_path());
        return match method {
            Method::Post => Route::CreateBook,
            Method::Get => Route::ListBooks,
            _ => Route::NoMatch,
        };
    }
    assert(path@ != collection_path()) by {
        if path@ == collection_path() {
            assert(path@.subrange(0, 5) =~= collection_path());
        }
    }
    let item = prefix && len > 6 && path.get_char(5) == '/';
    proof {
        let full = collection_path().push('/');
        if path@.len() > 6 && path@.subrange(0, 6) == full {
            assert(path@.subrange(0, 5) =~= full.subrange(0, 5));
            assert(full.subrange(0, 5) =~= collection_path());
            assert(path@[5] == path@.subrange(0, 6)[5]);
        }
        if item {
            assert forall|i: int| 0 <= i < 5 implies path@[i] == collection_path()[i] by {
                assert(path@[i] == path@.subrange(0, 5)[i]);
            }
            assert(path@.subrange(0, 6) =~= full);
        }
    }
    if !item {
        return Route::NoMatch;
    }
    let rest = path.substring_char(6, len);
    if !segment_free_of_slash(rest) {
        return Route::NoMatch;
    }
    match method {
        Method::Put => Route::EditBook(String::from_str(rest)),
        Method::Delete => Route::DeleteBook(String::from_str(rest)),
        _ => Route::NoMatch,
    }
}

/// What a request is answered with.
#[derive(Debug)]
pub enum Reply {
    /// The record that was created.
    Created(book),
    /// Every stored record.
    Listing(Vec<book>),
    /// The operation succeeded and nothing is returned.
    Done,
    /// The request failed.
    Failure(ApiError),
}

pub enum ReplyView {
    Created(BookView),
    Listing(Seq<BookView>),
    Done,
    Failure(ApiError),
}

impl View for Reply {
    type V = ReplyView;

    open spec fn view(&self) -> ReplyView {
        match self {
            Reply::Created(b) => ReplyView::Created(b@),
            Reply::Listing(v) => ReplyView::Listing(views_of(v@)),
            Reply::Done => ReplyView::Done,
            Reply::Failure(e) => ReplyView::Failure(*e),
        }
    }
}

/// Successful replies are 200; failures carry their own status code.
pub open spec fn reply_status(r: ReplyView) -> u16 {
    match r {
        ReplyView::Failure(e) => error_status(e),
        _ => 200,
    }
}

impl Reply {
    pub fn status(&self) -> (r: u16)
        ensures
            r == reply_status(self@),
    {
        match self {
            Reply::Failure(e) => e.status_code(),
            _ => 200,
        }
    }
}

pub open spec fn unit_reply(r: Result<(), ApiError>) -> ReplyView {
    match r {
        Ok(_) => ReplyView::Done,
        Err(e) => ReplyView::Failure(e),
    }
}

/// The whole service as a function of its state and one request, handled at
/// time `at`: the new state and the reply.
pub open spec fn dispatch_spec(
    s: DbView,
    m: Method,
    p: Seq<char>,
    body: Option<PayloadView>,
    at: Timestamp,
) -> (DbView, ReplyView) {
    match route_spec(m, p) {
        RouteView::CreateBook => {
            let (s2, r) = create_request_spec(s, body, at);
            (s2, match r {
                Ok(b) => ReplyView::Created(b),
                Err(e) => ReplyView::Failure(e),
            })
        },
        RouteView::EditBook(id) => {
            let (s2, r) = edit_request_spec(s, id, body);
            (s2, unit_reply(r))
        },
        RouteView::DeleteBook(id) => {
            let (s2, r) = delete_spec(s, id);
            (s2, unit_reply(r))
        },
        RouteView::ListBooks => (s, ReplyView::Listing(list_spec(s))),
        RouteView::NoMatch => (s, ReplyView::Failure(ApiError::NoRoute)),
    }
}

/// Routes a request and runs its handler, with `now` as the request time.
pub fn dispatch_at(db: &mut Db, method: Method, path: &str, body: Option<BookPayload>, now: Timestamp) -> (r: Reply)
    requires
        old(db).wf(),
    ensures
        final(db).wf(),
        (final(db)@, r@) == dispatch_spec(old(db)@, method, path@, body_view(body), now),
{
    match route(method, path) {
        Route::CreateBook => match create_book_at(db, body, now) {
            Ok(b) => Reply::Created(b),
            Err(e) => Reply::Failure(e),
        },
        Route::EditBook(id) => match edit_book_handler(db, &id, body) {
            Ok(()) => Reply::Done,
            Err(e) => Reply::Failure(e),
        },
        Route::DeleteBook(id) => match delete_book_handler(db, &id) {
            Ok(()) => Reply::Done,
            Err(e) => Reply::Failure(e),
        },
        Route::ListBooks => Reply::Listing(list_books_handler(db)),
        Route::NoMatch => Reply::Failure(ApiError::NoRoute),
    }
}

/// Routes a request and runs its handler at the current time.
pub fn handle_request(db: &mut Db, method: Method, path: &str, body: Option<BookPayload>) -> (r: Reply)
    requires
        old(db).wf(),
    ensures
        final(db).wf(),
        exists|t: Timestamp| t.wf() && (final(db)@, r@) == dispatch_spec(old(db)@, method, path@, body_view(body), t),
{
    let now = current_time();
    dispatch_at(db, method, path, body, now)
}

} // verus!
