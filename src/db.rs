use vstd::prelude::*;
use crate::error::ApiError;
use crate::model::{book, decimal, decimal_string, edited, lemma_decimal_injective, record_of, views_of, BookPayload, BookView, PayloadView, Timestamp};

verus! {

/// The abstract state of the store: its records, and the number from which
/// the next identifier is made.
pub struct DbView {
    pub records: Seq<BookView>,
    pub next_id: nat,
}

/// No two records share an identifier.
pub open spec fn unique_ids(recs: Seq<BookView>) -> bool {
    forall|i: int, j: int|
        0 <= i < recs.len() && 0 <= j < recs.len() && i != j ==> #[trigger] recs[i].id != #[trigger] recs[j].id
}

/// `id` is the decimal notation of a counter value the store has already used.
pub open spec fn issued(s: DbView, id: Seq<char>) -> bool {
    exists|k: nat| k < s.next_id && decimal(k) == id
}

/// Some record has identifier `id`.
pub open spec fn has_id(recs: Seq<BookView>, id: Seq<char>) -> bool {
    exists|i: int| 0 <= i < recs.len() && #[trigger] recs[i].id == id
}

/// The position of the record with identifier `id` (meaningful when `has_id`).
pub open spec fn index_of(recs: Seq<BookView>, id: Seq<char>) -> int {
    choose|i: int| 0 <= i < recs.len() && #[trigger] recs[i].id == id
}

/// Inserting a record: it gets the decimal notation of the counter as its
/// identifier and `at` as its creation time. Fails when the identifiers are
/// used up.
pub open spec fn create_spec(s: DbView, p: PayloadView, at: Timestamp) -> (DbView, Result<BookView, ApiError>) {
    if s.next_id >= u64::MAX {
        (s, Err(ApiError::Storage))
    } else {
        let b = record_of(decimal(s.next_id), p, at);
        (DbView { records: s.records.push(b), next_id: s.next_id + 1 }, Ok(b))
    }
}

/// Overwriting the content fields of the record with identifier `id`.
pub open spec fn update_spec(s: DbView, id: Seq<char>, p: PayloadView) -> (DbView, Result<(), ApiError>) {
    if has_id(s.records, id) {
        let i = index_of(s.records, id);
        (DbView { records: s.records.update(i, edited(s.records[i], p)), next_id: s.next_id }, Ok(()))
    } else {
        (s, Err(ApiError::NotFound))
    }
}

/// Removing the record with identifier `id`.
pub open spec fn delete_spec(s: DbView, id: Seq<char>) -> (DbView, Result<(), ApiError>) {
    if has_id(s.records, id) {
        (DbView { records: s.records.remove(index_of(s.records, id)), next_id: s.next_id }, Ok(()))
    } else {
        (s, Err(ApiError::NotFound))
    }
}

/// Listing returns every stored record.
pub open spec fn list_spec(s: DbView) -> Seq<BookView> {
    s.records
}

/// A fallible result with the record replaced by its view.
pub open spec fn book_result(r: Result<book, ApiError>) -> Result<BookView, ApiError> {
    match r {
        Ok(b) => Ok(b@),
        Err(e) => Err(e),
    }
}

/// The storage gateway: an in-memory table of book records keyed by identifier.
pub struct Db {
    books: Vec<book>,
    next_id: u64,
    /// The counter value each record's identifier was made from.
    keys: Ghost<Seq<nat>>,
}

impl View for Db {
    type V = DbView;

    closed spec fn view(&self) -> DbView {
        DbView { records: views_of(self.books@), next_id: self.next_id as nat }
    }
}

impl Db {
    /// Every identifier is the decimal notation of a counter value already
    /// handed out, and no two records share one.
    pub closed spec fn wf(&self) -> bool {
        &&& self.keys@.len() == self.books@.len()
        &&& forall|i: int| 0 <= i < self.keys@.len() ==> #[trigger] self.keys@[i] < self.next_id
            && self.books@[i].id@ == decimal(self.keys@[i])
        &&& unique_ids(self@.records)
    }

    pub proof fn lemma_wf_unique(&self)
        requires
            self.wf(),
        ensures
            unique_ids(self@.records),
    {
    }

    /// Every stored identifier was made from a counter value below `next_id`.
    pub proof fn lemma_ids_were_issued(&self)
        requires
            self.wf(),
        ensures
            forall|i: int| 0 <= i < self@.records.len() ==> #[trigger] issued(self@, self@.records[i].id),
    {
        assert forall|i: int| 0 <= i < self@.records.len() implies #[trigger] issued(self@, self@.records[i].id) by {
            let k = self.keys@[i];
            assert(k < self@.next_id && decimal(k) == self@.records[i].id);
        }
    }

    /// An empty store.
    pub fn init() -> (r: Db)
        ensures
            r.wf(),
            r@.records == Seq::<BookView>::empty(),
            r@.next_id == 0,
    {
        let r = Db { books: Vec::new(), next_id: 0, keys: Ghost(Seq::empty()) };
        assert(r@.records =~= Seq::<BookView>::empty());
        r
    }

    /// The position of the record with identifier `id`, if any.
    fn find(&self, id: &String) -> (r: Option<usize>)
        requires
            self.wf(),
        ensures
            r is Some <==> has_id(self@.records, id@),
            r matches Some(i) ==> i < self@.records.len() && i == index_of(self@.records, id@),
    {
        let mut i: usize = 0;
        while i < self.books.len()
            invariant
                self.wf(),
                i <= self.books@.len(),
                forall|j: int| 0 <= j < i ==> #[trigger] self@.records[j].id != id@,
            decreases self.books.len() - i,
        {
            if self.books[i].id == *id {
                assert(self@.records[i as int].id == id@);
                let ghost k = index_of(self@.records, id@);
                assert(self@.records[k].id == id@);
                assert(unique_ids(self@.records));
                assert(k == i as int);
                return Some(i);
            }
            i = i + 1;
        }
        None
    }

    /// Inserts a new record built from `payload`, created at `now`.
    pub fn create_book(&mut self, payload: BookPayload, now: Timestamp) -> (r: Result<book, ApiError>)
        requires
            old(self).wf(),
        ensures
            final(self).wf(),
            (final(self)@, book_result(r)) == create_spec(old(self)@, payload@, now),
    {
        if self.next_id == u64::MAX {
            return Err(ApiError::Storage);
        }
        let n = self.next_id;
        let b = book {
            id: decimal_string(n),
            name: payload.name,
            author: payload.author,
            num_pages: payload.num_pages,
            added_at: now,
            tags: payload.tags,
        };
        let out = b.duplicate();
        let ghost old_recs = self@.records;
        proof {
            assert forall|i: int| 0 <= i < old_recs.len() implies #[trigger] old_recs[i].id != decimal(n as nat) by {
                if old_recs[i].id == decimal(n as nat) {
                    lemma_decimal_injective(self.keys@[i], n as nat);
                }
            }
        }
        self.books.push(b);
        self.next_id = n + 1;
        self.keys = Ghost(self.keys@.push(n as nat));
        assert(self@.records =~= old_recs.push(out@));
        Ok(out)
    }

    /// Overwrites the content fields of the record with identifier `id`.
    pub fn edit_book(&mut self, id: &String, payload: BookPayload) -> (r: Result<(), ApiError>)
        requires
            old(self).wf(),
        ensures
            final(self).wf(),
            (final(self)@, r) == update_spec(old(self)@, id@, payload@),
    {
        match self.find(id) {
            None => Err(ApiError::NotFound),
            Some(i) => {
                let ghost old_recs = self@.records;
                let added_at = self.books[i].added_at;
                let b = book {
                    id: self.books[i].id.clone(),
                    name: payload.name,
                    author: payload.author,
                    num_pages: payload.num_pages,
                    added_at,
                    tags: payload.tags,
                };
                self.books.set(i, b);
                assert(self@.records =~= old_recs.update(i as int, edited(old_recs[i as int], payload@)));
                Ok(())
            }
        }
    }

    /// Removes the record with identifier `id`.
    pub fn delete_book(&mut self, id: &String) -> (r: Result<(), ApiError>)
        requires
            old(self).wf(),
        ensures
            final(self).wf(),
            (final(self)@, r) == delete_spec(old(self)@, id@),
    {
        match self.find(id) {
            None => Err(ApiError::NotFound),
            Some(i) => {
                let ghost old_recs = self@.records;
                let ghost old_keys = self.keys@;
                self.books.remove(i);
                self.keys = Ghost(old_keys.remove(i as int));
                assert(self@.records =~= old_recs.remove(i as int));
                Ok(())
            }
        }
    }

    /// Every stored record.
    pub fn fetch_books(&self) -> (r: Vec<book>)
        requires
            self.wf(),
        ensures
            views_of(r@) == list_spec(self@),
    {
        let mut r: Vec<book> = Vec::new();
        let mut i: usize = 0;
        while i < self.books.len()
            invariant
                i <= self.books@.len(),
                r@.len() == i,
                views_of(r@) == self@.records.subrange(0, i as int),
            decreases self.books.len() - i,
        {
            let ghost prev = r@;
            let c = self.books[i].duplicate();
            r.push(c);
            proof {
                let recs = self@.records;
                assert(r@ == prev.push(c));
                assert(views_of(r@).len() == i + 1);
                assert(c@ == self.books@[i as int]@);
                assert(recs[i as int] == self.books@[i as int]@);
                assert forall|j: int| 0 <= j < i + 1 implies #[trigger] views_of(r@)[j] == recs.subrange(0, i + 1)[j] by {
                    if j < i {
                        assert(views_of(prev)[j] == recs.subrange(0, i as int)[j]);
                        assert(r@[j] == prev[j]);
                    }
                }
                assert(views_of(r@) =~= recs.subrange(0, i + 1));
            }
            i = i + 1;
        }
        assert(self@.records.subrange(0, i as int) =~= self@.records);
        r
    }
}

} // verus!
