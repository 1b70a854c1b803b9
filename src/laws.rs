//! Laws of the service, stated over the request-level model `dispatch_spec`.

use vstd::prelude::*;
use crate::db::{has_id, issued, index_of, unique_ids, DbView};
use crate::error::ApiError;
use crate::model::{decimal, lemma_decimal_injective, lemma_decimal_len, record_of, valid_payload, PayloadView, Timestamp};
use crate::router::{collection_path, Method, dispatch_spec, is_segment, item_path, reply_status, route_spec, ReplyView, RouteView};

verus! {

/// The path of one record is routed, by PUT and DELETE, to that record's identifier.
pub proof fn lemma_item_path_routes(id: Seq<char>)
    requires
        is_segment(id),
    ensures
        route_spec(Method::Put, item_path(id)) == RouteView::EditBook(id),
        route_spec(Method::Delete, item_path(id)) == RouteView::DeleteBook(id),
{
    let p = item_path(id);
    assert(p.len() > 6);
    assert(p != collection_path());
    assert(p.subrange(0, 6) =~= collection_path().push('/'));
    assert(p.subrange(6, p.len() as int) =~= id);
}

/// A POST of a valid body to `/book` answers 200 with the new record, whose
/// identifier is non-empty, and a GET of `/book` right after lists it.
/// (The store must still have identifiers to hand out.)
pub proof fn lemma_created_record_is_listed(s: DbView, p: PayloadView, at: Timestamp, later: Timestamp)
    requires
        valid_payload(p),
        s.next_id < u64::MAX,
    ensures
        ({
            let (s1, r1) = dispatch_spec(s, Method::Post, collection_path(), Some(p), at);
            let b = record_of(decimal(s.next_id), p, at);
            &&& r1 == ReplyView::Created(b)
            &&& reply_status(r1) == 200
            &&& b.id.len() > 0
            &&& dispatch_spec(s1, Method::Get, collection_path(), None, later).1 == ReplyView::Listing(s1.records)
            &&& s1.records.contains(b)
        }),
{
    lemma_decimal_len(s.next_id);
    let s1 = dispatch_spec(s, Method::Post, collection_path(), Some(p), at).0;
    let b = record_of(decimal(s.next_id), p, at);
    assert(s1.records[s1.records.len() - 1] == b);
}

/// A PUT to `/book/{id}` with a valid body, where no record has `id`,
/// answers 404 and leaves the store as it was.
pub proof fn lemma_edit_missing_is_not_found(s: DbView, id: Seq<char>, p: PayloadView, at: Timestamp)
    requires
        is_segment(id),
        valid_payload(p),
        !has_id(s.records, id),
    ensures
        dispatch_spec(s, Method::Put, item_path(id), Some(p), at) == (s, ReplyView::Failure(ApiError::NotFound)),
        reply_status(ReplyView::Failure(ApiError::NotFound)) == 404,
{
    lemma_item_path_routes(id);
}

/// After a DELETE of `/book/{id}`, a GET of `/book` lists no record with `id`.
pub proof fn lemma_deleted_id_is_gone(s: DbView, id: Seq<char>, at: Timestamp, later: Timestamp)
    requires
        unique_ids(s.records),
        is_segment(id),
    ensures
        ({
            let s1 = dispatch_spec(s, Method::Delete, item_path(id), None, at).0;
            &&& dispatch_spec(s1, Method::Get, collection_path(), None, later).1 == ReplyView::Listing(s1.records)
            &&& !has_id(s1.records, id)
        }),
{
    lemma_item_path_routes(id);
    let s1 = dispatch_spec(s, Method::Delete, item_path(id), None, at).0;
    if has_id(s.records, id) {
        let i = index_of(s.records, id);
        assert(s.records[i].id == id);
        assert forall|j: int| 0 <= j < s1.records.len() implies #[trigger] s1.records[j].id != id by {
            if j < i {
                assert(s1.records[j] == s.records[j]);
            } else {
                assert(s1.records[j] == s.records[j + 1]);
            }
        }
    }
}

/// A DELETE of `/book/{id}`, where no record has `id`, answers 404 and
/// leaves the store as it was.
pub proof fn lemma_delete_missing_is_not_found(s: DbView, id: Seq<char>, at: Timestamp)
    requires
        is_segment(id),
        !has_id(s.records, id),
    ensures
        dispatch_spec(s, Method::Delete, item_path(id), None, at) == (s, ReplyView::Failure(ApiError::NotFound)),
        reply_status(ReplyView::Failure(ApiError::NotFound)) == 404,
{
    lemma_item_path_routes(id);
}

/// A PUT never changes the creation time of any record.
pub proof fn lemma_edit_keeps_added_at(s: DbView, path: Seq<char>, body: Option<PayloadView>, at: Timestamp)
    ensures
        ({
            let s1 = dispatch_spec(s, Method::Put, path, body, at).0;
            &&& s1.records.len() == s.records.len()
            &&& forall|i: int| 0 <= i < s.records.len() ==> #[trigger] s1.records[i].added_at == s.records[i].added_at
        }),
{
}

/// One request of a run, as plain values.
pub struct RequestView {
    pub method: Method,
    pub path: Seq<char>,
    pub body: Option<PayloadView>,
    pub at: Timestamp,
}

/// The state after handling `reqs` in order, starting from `s`.
pub open spec fn run(s: DbView, reqs: Seq<RequestView>) -> DbView
    decreases reqs.len(),
{
    if reqs.len() == 0 {
        s
    } else {
        let r = reqs[0];
        run(dispatch_spec(s, r.method, r.path, r.body, r.at).0, reqs.drop_first())
    }
}

/// An identifier that the store has handed out and no record holds stays
/// absent across any one request: creates make fresh identifiers, edits keep
/// identifiers, and deletes only remove records.
pub proof fn lemma_absent_issued_id_stays_absent(
    s: DbView,
    id: Seq<char>,
    m: Method,
    p: Seq<char>,
    body: Option<PayloadView>,
    at: Timestamp,
)
    requires
        issued(s, id),
        !has_id(s.records, id),
    ensures
        ({
            let s1 = dispatch_spec(s, m, p, body, at).0;
            issued(s1, id) && !has_id(s1.records, id)
        }),
{
    let k = choose|k: nat| k < s.next_id && decimal(k) == id;
    let s1 = dispatch_spec(s, m, p, body, at).0;
    assert(s1.next_id >= s.next_id);
    assert(k < s1.next_id && decimal(k) == id);
    match route_spec(m, p) {
        RouteView::CreateBook => {
            if s1.records.len() > s.records.len() {
                if decimal(s.next_id) == id {
                    lemma_decimal_injective(s.next_id, k);
                }
                assert forall|j: int| 0 <= j < s1.records.len() implies #[trigger] s1.records[j].id != id by {
                    if j < s.records.len() {
                        assert(s1.records[j] == s.records[j]);
                    }
                }
            }
        },
        RouteView::EditBook(e) => {
            assert forall|j: int| 0 <= j < s1.records.len() implies #[trigger] s1.records[j].id != id by {
                assert(s1.records[j].id == s.records[j].id);
            }
        },
        RouteView::DeleteBook(d) => {
            if has_id(s.records, d) {
                let i = index_of(s.records, d);
                assert forall|j: int| 0 <= j < s1.records.len() implies #[trigger] s1.records[j].id != id by {
                    if j < i {
                        assert(s1.records[j] == s.records[j]);
                    } else {
                        assert(s1.records[j] == s.records[j + 1]);
                    }
                }
            }
        },
        _ => {},
    }
}

/// The same across any run of requests.
pub proof fn lemma_absent_issued_id_stays_absent_in_run(s: DbView, id: Seq<char>, reqs: Seq<RequestView>)
    requires
        issued(s, id),
        !has_id(s.records, id),
    ensures
        issued(run(s, reqs), id),
        !has_id(run(s, reqs).records, id),
    decreases reqs.len(),
{
    if reqs.len() > 0 {
        let r = reqs[0];
        lemma_absent_issued_id_stays_absent(s, id, r.method, r.path, r.body, r.at);
        lemma_absent_issued_id_stays_absent_in_run(
            dispatch_spec(s, r.method, r.path, r.body, r.at).0,
            id,
            reqs.drop_first(),
        );
    }
}

/// A deleted identifier never reappears: after a DELETE of `/book/{id}`,
/// where `id` is one the store has handed out, and any later run of requests,
/// a GET of `/book` lists no record with `id`.
pub proof fn lemma_deleted_id_never_reappears(
    s: DbView,
    id: Seq<char>,
    at: Timestamp,
    reqs: Seq<RequestView>,
    later: Timestamp,
)
    requires
        unique_ids(s.records),
        is_segment(id),
        issued(s, id),
    ensures
        ({
            let s1 = dispatch_spec(s, Method::Delete, item_path(id), None, at).0;
            let s2 = run(s1, reqs);
            &&& dispatch_spec(s2, Method::Get, collection_path(), None, later).1 == ReplyView::Listing(s2.records)
            &&& !has_id(s2.records, id)
        }),
{
    lemma_deleted_id_is_gone(s, id, at, later);
    let s1 = dispatch_spec(s, Method::Delete, item_path(id), None, at).0;
    assert(s1.next_id == s.next_id);
    let k = choose|k: nat| k < s.next_id && decimal(k) == id;
    assert(k < s1.next_id && decimal(k) == id);
    lemma_absent_issued_id_stays_absent_in_run(s1, id, reqs);
}

} // verus!
