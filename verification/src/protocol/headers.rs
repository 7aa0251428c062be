//! One header field/value pair, and the ordered, duplicate-preserving
//! collection of the headers of a message with case-insensitive lookup.

use vstd::prelude::*;
use vstd::pervasive::VecAdditionalExecFns;
use vstd::string::StrSliceExecFns;
use vstd::string::StringExecFns;

use crate::protocol::ParseErrorView;
use crate::protocol::ParseRequestError;
use crate::protocol::text::eq_ci;
use crate::protocol::text::find_sep;
use crate::protocol::text::find_sep_from;
use crate::protocol::text::str_eq_ci;
use crate::protocol::text::trim;
use crate::protocol::text::trim_chars;

verus! {

/// One field/value pair of a message. The stored case of the field is
/// preserved as given; only lookup folds case.
#[derive(Debug)]
pub struct Header {
    field: String,
    value: String,
}

/// The mathematical value of a [`Header`]: its field and value as
/// character sequences.
pub struct HeaderView {
    pub field: Seq<char>,
    pub value: Seq<char>,
}

impl View for Header {
    type V = HeaderView;

    closed spec fn view(&self) -> HeaderView {
        HeaderView { field: self.field@, value: self.value@ }
    }
}

/// What one header line denotes, if anything: the line splits on the first
/// `": "`; the part before is the field, verbatim, and the part after is
/// the value, trimmed of surrounding white space. A line without the
/// separator denotes nothing.
pub open spec fn header_of_chars(s: Seq<char>) -> Option<HeaderView> {
    match find_sep_from(s, 0) {
        Some(i) => Some(
            HeaderView { field: s.take(i), value: trim_chars(s.subrange(i + 2, s.len() as int)) },
        ),
        None => None,
    }
}

/// The wire form of one header: `FIELD ": " VALUE CRLF`.
pub open spec fn header_chars(h: HeaderView) -> Seq<char> {
    h.field + ": "@ + h.value + "\r\n"@
}

impl Header {
    /// Builds a header from a field and a value, stored as given.
    pub fn new(field: String, value: String) -> (r: Header)
        ensures
            r@ == (HeaderView { field: field@, value: value@ }),
    {
        Header { field, value }
    }

    /// The field name, in its stored case.
    pub fn field(&self) -> (r: &str)
        ensures
            r@ == self@.field,
    {
        self.field.as_str()
    }

    /// The value, as stored.
    pub fn value(&self) -> (r: &str)
        ensures
            r@ == self@.value,
    {
        self.value.as_str()
    }

    /// Parses one header line: everything before the first `": "` becomes
    /// the field, everything after it becomes the value, trimmed. A line
    /// without the separator is rejected, echoing the offending line.
    pub fn parse(s: &str) -> (r: Result<Header, ParseRequestError>)
        ensures
            match r {
                Ok(h) => header_of_chars(s@) == Some(h@),
                Err(e) => header_of_chars(s@) is None && e@ == ParseErrorView::InvalidHeader(s@),
            },
    {
        match find_sep(s, 0) {
            Some(i) => {
                let len = s.unicode_len();
                let field = s.substring_char(0, i).to_owned();
                let tail = s.substring_char(i + 2, len);
                let value = trim(tail);
                proof {
                    assert(s@.subrange(0, i as int) =~= s@.take(i as int));
                }
                Ok(Header { field, value })
            },
            None => Err(ParseRequestError::InvalidHeader(s.to_owned())),
        }
    }

    /// The wire form of this header: `FIELD ": " VALUE CRLF`.
    pub fn to_http_message(&self) -> (r: String)
        ensures
            r@ == header_chars(self@),
    {
        let mut s = self.field.clone();
        s.append(": ");
        s.append(self.value.as_str());
        s.append("\r\n");
        proof {
            assert(s@ =~= header_chars(self@));
        }
        s
    }
}

/// The value of the first entry whose field matches case-insensitively, if
/// any.
pub open spec fn headers_get(hs: Seq<HeaderView>, field: Seq<char>) -> Option<Seq<char>>
    decreases hs.len(),
{
    if hs.len() == 0 {
        None
    } else if eq_ci(hs[0].field, field) {
        Some(hs[0].value)
    } else {
        headers_get(hs.drop_first(), field)
    }
}

/// The collection after an upsert: the first entry whose field matches
/// case-insensitively has its value overwritten in place, its stored field
/// untouched; when none matches, a new entry is appended at the end.
pub open spec fn headers_set(hs: Seq<HeaderView>, field: Seq<char>, value: Seq<char>) -> Seq<
    HeaderView,
>
    decreases hs.len(),
{
    if hs.len() == 0 {
        seq![HeaderView { field, value }]
    } else if eq_ci(hs[0].field, field) {
        seq![HeaderView { field: hs[0].field, value }] + hs.drop_first()
    } else {
        seq![hs[0]] + headers_set(hs.drop_first(), field, value)
    }
}

/// The wire form of a whole collection: each header's line, in collection
/// order.
pub open spec fn headers_chars(hs: Seq<HeaderView>) -> Seq<char>
    decreases hs.len(),
{
    if hs.len() == 0 {
        Seq::<char>::empty()
    } else {
        header_chars(hs[0]) + headers_chars(hs.drop_first())
    }
}

/// Lookup law: fields that are equal up to ASCII case find the same entry.
pub proof fn lemma_get_case_insensitive(hs: Seq<HeaderView>, f1: Seq<char>, f2: Seq<char>)
    requires
        eq_ci(f1, f2),
    ensures
        headers_get(hs, f1) == headers_get(hs, f2),
    decreases hs.len(),
{
    if hs.len() > 0 {
        assert(eq_ci(hs[0].field, f1) == eq_ci(hs[0].field, f2));
        lemma_get_case_insensitive(hs.drop_first(), f1, f2);
    }
}

/// When the first case-insensitive match sits at index `i`, the upsert
/// overwrites exactly that entry's value.
proof fn lemma_headers_set_match(hs: Seq<HeaderView>, field: Seq<char>, value: Seq<char>, i: int)
    requires
        0 <= i < hs.len(),
        eq_ci(hs[i].field, field),
        forall|j: int| 0 <= j < i ==> !eq_ci(#[trigger] hs[j].field, field),
    ensures
        headers_set(hs, field, value) =~= hs.update(
            i,
            HeaderView { field: hs[i].field, value },
        ),
    decreases i,
{
    if i == 0 {
    } else {
        assert(!eq_ci(hs[0].field, field));
        let t = hs.drop_first();
        assert(forall|j: int| 0 <= j < i - 1 ==> !eq_ci(#[trigger] t[j].field, field));
        lemma_headers_set_match(t, field, value, i - 1);
        assert(t.update(i - 1, HeaderView { field: t[i - 1].field, value }) =~= hs.update(
            i,
            HeaderView { field: hs[i].field, value },
        ).drop_first());
    }
}

/// When no entry matches case-insensitively, the upsert appends a new
/// entry at the end.
proof fn lemma_headers_set_no_match(hs: Seq<HeaderView>, field: Seq<char>, value: Seq<char>)
    requires
        forall|j: int| 0 <= j < hs.len() ==> !eq_ci(#[trigger] hs[j].field, field),
    ensures
        headers_set(hs, field, value) =~= hs.push(HeaderView { field, value }),
    decreases hs.len(),
{
    if hs.len() > 0 {
        lemma_headers_set_no_match(hs.drop_first(), field, value);
    }
}

/// The wire form of a collection distributes over concatenation.
proof fn lemma_headers_chars_concat(a: Seq<HeaderView>, b: Seq<HeaderView>)
    ensures
        headers_chars(a + b) == headers_chars(a) + headers_chars(b),
    decreases a.len(),
{
    if a.len() == 0 {
        assert(a + b =~= b);
        assert(headers_chars(a) + headers_chars(b) =~= headers_chars(b));
    } else {
        assert((a + b).len() > 0);
        assert((a + b)[0] == a[0]);
        assert((a + b).drop_first() =~= a.drop_first() + b);
        lemma_headers_chars_concat(a.drop_first(), b);
        assert(header_chars(a[0]) + (headers_chars(a.drop_first()) + headers_chars(b)) =~= (
        header_chars(a[0]) + headers_chars(a.drop_first())) + headers_chars(b));
    }
}

/// The ordered collection of the headers of one message. Duplicates are
/// permitted and kept; insertion order is preserved.
#[derive(Debug)]
pub struct Headers(Vec<Header>);

impl View for Headers {
    type V = Seq<HeaderView>;

    closed spec fn view(&self) -> Seq<HeaderView> {
        Seq::new(self.0@.len(), |i: int| self.0@[i]@)
    }
}

impl Headers {
    /// A collection with no entries yet.
    pub fn empty() -> (r: Headers)
        ensures
            r@ =~= Seq::<HeaderView>::empty(),
    {
        let inner = Vec::new();
        Headers(inner)
    }

    /// How many entries the collection holds.
    pub fn len(&self) -> (r: usize)
        ensures
            r == self@.len(),
    {
        self.0.len()
    }

    /// Appends an entry at the end, preserving everything already there.
    pub fn push(&mut self, h: Header)
        ensures
            final(self)@ =~= old(self)@.push(h@),
    {
        self.0.push(h);
    }

    /// Looks up a field case-insensitively: the value of the first entry
    /// that matches, or nothing when none does.
    pub fn get<'a>(&'a self, field: &str) -> (r: Option<&'a str>)
        ensures
            match r {
                Some(v) => headers_get(self@, field@) == Some(v@),
                None => headers_get(self@, field@) is None,
            },
    {
        let n = self.0.len();
        let mut i: usize = 0;
        proof {
            assert(self@.skip(0) =~= self@);
        }
        while i < n
            invariant
                n == self.0.len(),
                n == self@.len(),
                i <= n,
                headers_get(self@, field@) == headers_get(self@.skip(i as int), field@),
            decreases n - i,
        {
            let h = &self.0[i];
            proof {
                assert(self@.skip(i as int)[0] == self@[i as int]);
                assert(self@.skip(i as int).drop_first() =~= self@.skip(i as int + 1));
            }
            if str_eq_ci(h.field.as_str(), field) {
                return Some(h.value.as_str());
            }
            i += 1;
        }
        proof {
            assert(self@.skip(n as int) =~= Seq::<HeaderView>::empty());
        }
        None
    }

    /// Upserts a field: overwrites the value of the first case-insensitive
    /// match in place, or appends a new entry at the end when none matches.
    pub fn set(&mut self, field: &str, value: String)
        ensures
            final(self)@ =~= headers_set(old(self)@, field@, value@),
    {
        let n = self.0.len();
        let mut i: usize = 0;
        while i < n
            invariant
                *self == *old(self),
                n == self.0.len(),
                n == self@.len(),
                i <= n,
                forall|j: int| 0 <= j < i ==> !eq_ci(#[trigger] self@[j].field, field@),
            decreases n - i,
        {
            let matched = {
                let h = &self.0[i];
                str_eq_ci(h.field.as_str(), field)
            };
            if matched {
                proof {
                    lemma_headers_set_match(self@, field@, value@, i as int);
                }
                let ghost pre = self@;
                let kept_field = self.0[i].field.clone();
                self.0.set(i, Header { field: kept_field, value });
                proof {
                    assert(self@ =~= pre.update(
                        i as int,
                        HeaderView { field: pre[i as int].field, value: value@ },
                    ));
                }
                return ;
            }
            i += 1;
        }
        proof {
            lemma_headers_set_no_match(self@, field@, value@);
        }
        let ghost pre = self@;
        self.0.push(Header { field: field.to_owned(), value });
        proof {
            assert(self@ =~= pre.push(HeaderView { field: field@, value: value@ }));
        }
    }

    /// The wire form of the whole collection: each entry's header line, in
    /// collection order.
    pub fn to_http_message(&self) -> (r: String)
        ensures
            r@ == headers_chars(self@),
    {
        let mut out = String::new();
        let n = self.0.len();
        let mut i: usize = 0;
        while i < n
            invariant
                n == self.0.len(),
                n == self@.len(),
                i <= n,
                out@ == headers_chars(self@.take(i as int)),
            decreases n - i,
        {
            let line = {
                let h = &self.0[i];
                h.to_http_message()
            };
            out.append(line.as_str());
            proof {
                let h = self@[i as int];
                lemma_headers_chars_concat(self@.take(i as int), seq![h]);
                assert(self@.take(i as int) + seq![h] =~= self@.take(i as int + 1));
                assert(seq![h].drop_first() =~= Seq::<HeaderView>::empty());
                assert(headers_chars(seq![h].drop_first()) =~= Seq::<char>::empty());
                assert(headers_chars(seq![h]) =~= header_chars(h));
                assert(out@ =~= headers_chars(self@.take(i as int + 1)));
            }
            i += 1;
        }
        proof {
            assert(self@.take(n as int) =~= self@);
        }
        out
    }
}

} // verus!
