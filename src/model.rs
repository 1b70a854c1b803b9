use vstd::prelude::*;

verus! {

/// A point in time: whole seconds since the Unix epoch (UTC) and the
/// nanoseconds past that second.
#[derive(Debug, Clone, Copy, PartialEq, Eq, Structural)]
pub struct Timestamp {
    pub secs: i64,
    pub nanos: u32,
}

impl Timestamp {
    /// The nanoseconds stay below one second.
    pub open spec fn wf(&self) -> bool {
        self.nanos < 1_000_000_000
    }
}

/// A stored book record.
#[allow(non_camel_case_types)]
#[derive(Debug)]
pub struct book {
    pub id: String,
    pub name: String,
    pub author: String,
    pub num_pages: usize,
    pub added_at: Timestamp,
    pub tags: Vec<String>,
}

/// What a book record is, as plain values.
pub struct BookView {
    pub id: Seq<char>,
    pub name: Seq<char>,
    pub author: Seq<char>,
    pub num_pages: nat,
    pub added_at: Timestamp,
    pub tags: Seq<String>,
}

impl View for book {
    type V = BookView;

    open spec fn view(&self) -> BookView {
        BookView {
            id: self.id@,
            name: self.name@,
            author: self.author@,
            num_pages: self.num_pages as nat,
            added_at: self.added_at,
            tags: self.tags@,
        }
    }
}

/// The views of a sequence of records.
pub open spec fn views_of(v: Seq<book>) -> Seq<BookView> {
    v.map_values(|b: book| b@)
}

/// The content fields of a book as a client sends them on create and edit;
/// the identifier and the creation time are assigned by the store.
#[derive(Debug)]
pub struct BookPayload {
    pub name: String,
    pub author: String,
    pub num_pages: usize,
    pub tags: Vec<String>,
}

pub struct PayloadView {
    pub name: Seq<char>,
    pub author: Seq<char>,
    pub num_pages: nat,
    pub tags: Seq<String>,
}

impl View for BookPayload {
    type V = PayloadView;

    open spec fn view(&self) -> PayloadView {
        PayloadView {
            name: self.name@,
            author: self.author@,
            num_pages: self.num_pages as nat,
            tags: self.tags@,
        }
    }
}

/// A payload is acceptable when it names the book.
pub open spec fn valid_payload(p: PayloadView) -> bool {
    p.name.len() > 0
}

/// The record built from a payload under a given identifier and creation time.
pub open spec fn record_of(id: Seq<char>, p: PayloadView, at: Timestamp) -> BookView {
    BookView { id, name: p.name, author: p.author, num_pages: p.num_pages, added_at: at, tags: p.tags }
}

/// A record whose content fields are replaced by a payload; its identifier
/// and creation time stay.
pub open spec fn edited(b: BookView, p: PayloadView) -> BookView {
    record_of(b.id, p, b.added_at)
}

impl BookPayload {
    pub fn is_valid(&self) -> (r: bool)
        ensures
            r == valid_payload(self@),
    {
        self.name.as_str().unicode_len() > 0
    }
}

/// A copy of a list of strings, element for element.
pub fn copy_strings(v: &Vec<String>) -> (r: Vec<String>)
    ensures
        r@ == v@,
{
    let mut r: Vec<String> = Vec::new();
    let mut i: usize = 0;
    while i < v.len()
        invariant
            i <= v.len(),
            r@ == v@.subrange(0, i as int),
        decreases v.len() - i,
    {
        r.push(v[i].clone());
        i = i + 1;
    }
    assert(r@ =~= v@);
    r
}

impl book {
    /// A copy of the record, field for field.
    pub fn duplicate(&self) -> (r: book)
        ensures
            r@ == self@,
    {
        book {
            id: self.id.clone(),
            name: self.name.clone(),
            author: self.author.clone(),
            num_pages: self.num_pages,
            added_at: self.added_at,
            tags: copy_strings(&self.tags),
        }
    }
}

/// The decimal character of a digit.
pub open spec fn digit_char(d: nat) -> char {
    if d == 0 { '0' }
    else if d == 1 { '1' }
    else if d == 2 { '2' }
    else if d == 3 { '3' }
    else if d == 4 { '4' }
    else if d == 5 { '5' }
    else if d == 6 { '6' }
    else if d == 7 { '7' }
    else if d == 8 { '8' }
    else { '9' }
}

/// The decimal notation of a number, without leading zeros.
pub open spec fn decimal(n: nat) -> Seq<char>
    decreases n,
{
    if n < 10 {
        seq![digit_char(n)]
    } else {
        decimal(n / 10).push(digit_char(n % 10))
    }
}

pub proof fn lemma_decimal_len(n: nat)
    ensures
        decimal(n).len() >= 1,
        n >= 10 ==> decimal(n).len() >= 2,
    decreases n,
{
    if n >= 10 {
        lemma_decimal_len(n / 10);
    }
}

/// Different numbers have different decimal notations.
pub proof fn lemma_decimal_injective(a: nat, b: nat)
    requires
        decimal(a) == decimal(b),
    ensures
        a == b,
    decreases a,
{
    lemma_decimal_len(a);
    lemma_decimal_len(b);
    if a >= 10 && b >= 10 {
        let da = decimal(a);
        let db = decimal(b);
        assert(da.last() == digit_char(a % 10));
        assert(db.last() == digit_char(b % 10));
        assert(decimal(a / 10) =~= da.drop_last());
        assert(decimal(b / 10) =~= db.drop_last());
        lemma_decimal_injective(a / 10, b / 10);
    } else if a < 10 && b < 10 {
        assert(decimal(a)[0] == digit_char(a));
        assert(decimal(b)[0] == digit_char(b));
    }
}

fn digit_str(d: u64) -> (r: &'static str)
    requires
        d < 10,
    ensures
        r@ == seq![digit_char(d as nat)],
{
    proof {
        reveal_strlit("0");
        reveal_strlit("1");
        reveal_strlit("2");
        reveal_strlit("3");
        reveal_strlit("4");
        reveal_strlit("5");
        reveal_strlit("6");
        reveal_strlit("7");
        reveal_strlit("8");
        reveal_strlit("9");
    }
    let r = if d == 0 { "0" }
    else if d == 1 { "1" }
    else if d == 2 { "2" }
    else if d == 3 { "3" }
    else if d == 4 { "4" }
    else if d == 5 { "5" }
    else if d == 6 { "6" }
    else if d == 7 { "7" }
    else if d == 8 { "8" }
    else { "9" };
    assert(r@ =~= seq![digit_char(d as nat)]);
    r
}

/// The decimal notation of `n`, used as a record identifier.
pub fn decimal_string(n: u64) -> (r: String)
    ensures
        r@ == decimal(n as nat),
    decreases n,
{
    if n < 10 {
        String::from_str(digit_str(n))
    } else {
        let mut s = decimal_string(n / 10);
        s.append(digit_str(n % 10));
        s
    }
}

} // verus!
