//! The textual header block that precedes every message body.
//!
//! A header is a sequence of `name:value` lines, each ended by `\r\n`, and
//! closed by an empty line. Exactly one of the fields must be `Content-Length`,
//! whose value is the size of the body in bytes.
use vstd::prelude::*;

use crate::Error;

verus! {

// ---------------------------------------------------------------------------
// Characters and sequences
// ---------------------------------------------------------------------------

/// White space in the sense of Unicode's `White_Space` property.
pub open spec fn is_ws(c: char) -> bool {
    let u = c as u32;
    (0x09 <= u && u <= 0x0D) || u == 0x20 || u == 0x85 || u == 0xA0 || u == 0x1680 || (0x2000
        <= u && u <= 0x200A) || u == 0x2028 || u == 0x2029 || u == 0x202F || u == 0x205F || u
        == 0x3000
}

/// `s` without its leading white space.
pub open spec fn trim_start(s: Seq<char>) -> Seq<char>
    decreases s.len(),
{
    if s.len() > 0 && is_ws(s[0]) {
        trim_start(s.drop_first())
    } else {
        s
    }
}

/// `s` without its trailing white space.
pub open spec fn trim_end(s: Seq<char>) -> Seq<char>
    decreases s.len(),
{
    if s.len() > 0 && is_ws(s.last()) {
        trim_end(s.drop_last())
    } else {
        s
    }
}

/// `s` without its leading and trailing white space.
pub open spec fn trim(s: Seq<char>) -> Seq<char> {
    trim_end(trim_start(s))
}

/// The index of the first `c` in `s`, or `s.len()` when there is none.
pub open spec fn index_of(s: Seq<char>, c: char) -> nat
    decreases s.len(),
{
    if s.len() == 0 {
        0
    } else if s[0] == c {
        0
    } else {
        1 + index_of(s.drop_first(), c)
    }
}

pub open spec fn lacks(s: Seq<char>, c: char) -> bool {
    forall|i: int| 0 <= i < s.len() ==> s[i] != c
}

// ---------------------------------------------------------------------------
// Decimal numbers
// ---------------------------------------------------------------------------

pub open spec fn is_digit(c: char) -> bool {
    '0' <= c && c <= '9'
}

pub open spec fn digit_value(c: char) -> nat {
    (c as u32 - '0' as u32) as nat
}

pub open spec fn digit_char(d: nat) -> char {
    if d == 0 {
        '0'
    } else if d == 1 {
        '1'
    } else if d == 2 {
        '2'
    } else if d == 3 {
        '3'
    } else if d == 4 {
        '4'
    } else if d == 5 {
        '5'
    } else if d == 6 {
        '6'
    } else if d == 7 {
        '7'
    } else if d == 8 {
        '8'
    } else {
        '9'
    }
}

/// The number written in decimal by the digits `s`.
pub open spec fn decimal_value(s: Seq<char>) -> nat
    decreases s.len(),
{
    if s.len() == 0 {
        0
    } else {
        decimal_value(s.drop_last()) * 10 + digit_value(s.last())
    }
}

/// `s` read as a non-negative decimal integer, with an optional `+` before
/// its digits, that fits in a `usize`.
pub open spec fn parse_decimal(s: Seq<char>) -> Option<usize> {
    if s.len() > 0 && s[0] == '+' {
        parse_digits(s.drop_first())
    } else {
        parse_digits(s)
    }
}

/// The digits `s` read as a decimal integer that fits in a `usize`.
pub open spec fn parse_digits(s: Seq<char>) -> Option<usize> {
    if s.len() > 0 && (forall|i: int| 0 <= i < s.len() ==> is_digit(#[trigger] s[i]))
        && decimal_value(s) <= usize::MAX {
        Some(decimal_value(s) as usize)
    } else {
        None
    }
}

/// The shortest decimal writing of `n`.
pub open spec fn to_decimal(n: nat) -> Seq<char>
    decreases n,
{
    if n < 10 {
        seq![digit_char(n)]
    } else {
        to_decimal(n / 10).push(digit_char(n % 10))
    }
}


// ---------------------------------------------------------------------------
// Fields and lines
// ---------------------------------------------------------------------------

/// The name of the one field that this library recognises.
pub open spec fn content_length_key() -> Seq<char> {
    seq!['C', 'o', 'n', 't', 'e', 'n', 't', '-', 'L', 'e', 'n', 'g', 't', 'h']
}

/// The line terminator of the protocol.
pub open spec fn crlf() -> Seq<char> {
    seq!['\r', '\n']
}

/// A header field.
#[derive(Debug, Clone, PartialEq)]
pub enum HeaderField {
    /// "The length of the content part in bytes"
    Len(usize),
    /// A field that this library does not interpret.
    Other { name: String, value: String },
}

/// A header field as plain values.
pub enum HeaderFieldView {
    Len(usize),
    Other(Seq<char>, Seq<char>),
}

impl View for HeaderField {
    type V = HeaderFieldView;

    open spec fn view(&self) -> HeaderFieldView {
        match self {
            HeaderField::Len(n) => HeaderFieldView::Len(*n),
            HeaderField::Other { name, value } => HeaderFieldView::Other(name@, value@),
        }
    }
}

/// The text of a line without its terminator.
pub open spec fn line_content(line: Seq<char>) -> Seq<char> {
    if line.len() >= 2 && line[line.len() - 2] == '\r' && line.last() == '\n' {
        line.subrange(0, line.len() - 2)
    } else {
        line
    }
}

/// The field named `name` with value `value`: the recognised name turns
/// into a typed field, whose value must then be a decimal number.
pub open spec fn specialize_spec(name: Seq<char>, value: Seq<char>) -> Option<HeaderFieldView> {
    if name == content_length_key() {
        match parse_decimal(value) {
            Some(n) => Some(HeaderFieldView::Len(n)),
            None => None,
        }
    } else {
        Some(HeaderFieldView::Other(name, value))
    }
}

/// What a header line holds: `None` when it is malformed, `Some(None)` when
/// it is empty and so ends the header, `Some(Some(f))` for a field `f`.
pub open spec fn parse_line_spec(line: Seq<char>) -> Option<Option<HeaderFieldView>> {
    let c = line_content(line);
    let k = index_of(c, ':');
    if c.len() == 0 {
        Some(None)
    } else if k == c.len() || !lacks(c.subrange(k + 1int, c.len() as int), ':') {
        None
    } else {
        let name = trim(c.subrange(0, k as int));
        let value = trim(c.subrange(k + 1int, c.len() as int));
        if name.len() == 0 || value.len() == 0 {
            None
        } else {
            match specialize_spec(name, value) {
                Some(f) => Some(Some(f)),
                None => None,
            }
        }
    }
}

/// The outcome of reading one line, as plain values.
pub open spec fn line_outcome(r: Result<Option<HeaderField>, Error>) -> Option<Option<HeaderFieldView>> {
    match r {
        Ok(Some(f)) => Some(Some(f@)),
        Ok(None) => Some(None),
        Err(_) => None,
    }
}

// ---------------------------------------------------------------------------
// Executable helpers
// ---------------------------------------------------------------------------

fn is_ws_char(c: char) -> (r: bool)
    ensures
        r == is_ws(c),
{
    let u = c as u32;
    (0x09 <= u && u <= 0x0D) || u == 0x20 || u == 0x85 || u == 0xA0 || u == 0x1680 || (0x2000
        <= u && u <= 0x200A) || u == 0x2028 || u == 0x2029 || u == 0x202F || u == 0x205F || u
        == 0x3000
}

fn chars_of(s: &str) -> (r: Vec<char>)
    ensures
        r@ == s@,
{
    let n = s.unicode_len();
    let mut r: Vec<char> = Vec::new();
    let mut i: usize = 0;
    while i < n
        invariant
            n == s@.len(),
            i <= n,
            r@ == s@.subrange(0, i as int),
        decreases n - i,
    {
        r.push(s.get_char(i));
        i = i + 1;
    }
    assert(r@ =~= s@);
    r
}

/// Whether two strings hold the same characters.
pub(crate) fn same_text(a: &str, b: &str) -> (r: bool)
    ensures
        r == (a@ == b@),
{
    let x = chars_of(a);
    let y = chars_of(b);
    if x.len() != y.len() {
        return false;
    }
    let mut i: usize = 0;
    while i < x.len()
        invariant
            x@ == a@,
            y@ == b@,
            x@.len() == y@.len(),
            i <= x@.len(),
            forall|j: int| 0 <= j < i ==> x@[j] == y@[j],
        decreases x@.len() - i,
    {
        if x[i] != y[i] {
            assert(a@[i as int] != b@[i as int]);
            return false;
        }
        i = i + 1;
    }
    assert(x@ =~= y@);
    true
}

/// Bounds of `cs[lo..hi]` without its leading and trailing white space.
fn trim_bounds(cs: &Vec<char>, lo: usize, hi: usize) -> (r: (usize, usize))
    requires
        lo <= hi <= cs@.len(),
    ensures
        lo <= r.0 <= r.1 <= hi,
        cs@.subrange(r.0 as int, r.1 as int) == trim(cs@.subrange(lo as int, hi as int)),
{
    let mut a = lo;
    while a < hi && is_ws_char(cs[a])
        invariant
            lo <= a <= hi <= cs@.len(),
            trim_start(cs@.subrange(lo as int, hi as int)) == trim_start(
                cs@.subrange(a as int, hi as int),
            ),
        decreases hi - a,
    {
        assert(cs@.subrange(a as int, hi as int).drop_first() =~= cs@.subrange(
            a + 1,
            hi as int,
        ));
        a = a + 1;
    }
    assert(trim_start(cs@.subrange(a as int, hi as int)) == cs@.subrange(a as int, hi as int));
    let mut b = hi;
    while b > a && is_ws_char(cs[b - 1])
        invariant
            lo <= a <= b <= hi <= cs@.len(),
            trim_end(cs@.subrange(a as int, hi as int)) == trim_end(
                cs@.subrange(a as int, b as int),
            ),
        decreases b - a,
    {
        assert(cs@.subrange(a as int, b as int).drop_last() =~= cs@.subrange(
            a as int,
            b - 1,
        ));
        b = b - 1;
    }
    (a, b)
}

proof fn lemma_decimal_prefix(s: Seq<char>, j: int)
    requires
        0 <= j <= s.len(),
    ensures
        decimal_value(s.subrange(0, j)) <= decimal_value(s),
    decreases s.len(),
{
    if j < s.len() {
        lemma_decimal_prefix(s.drop_last(), j);
        assert(s.drop_last().subrange(0, j) =~= s.subrange(0, j));
    } else {
        assert(s.subrange(0, j) =~= s);
    }
}

/// `cs[lo..hi]` read as a decimal number, with an optional `+` before it.
fn parse_usize(cs: &Vec<char>, lo: usize, hi: usize) -> (r: Option<usize>)
    requires
        lo <= hi <= cs@.len(),
    ensures
        r == parse_decimal(cs@.subrange(lo as int, hi as int)),
{
    if lo < hi && cs[lo] == '+' {
        assert(cs@.subrange(lo as int, hi as int).drop_first() =~= cs@.subrange(lo + 1, hi as int));
        parse_digit_run(cs, lo + 1, hi)
    } else {
        parse_digit_run(cs, lo, hi)
    }
}

/// The digits `cs[lo..hi]` read as a decimal number.
fn parse_digit_run(cs: &Vec<char>, lo: usize, hi: usize) -> (r: Option<usize>)
    requires
        lo <= hi <= cs@.len(),
    ensures
        r == parse_digits(cs@.subrange(lo as int, hi as int)),
{
    let ghost s = cs@.subrange(lo as int, hi as int);
    if lo == hi {
        return None;
    }
    let mut acc: usize = 0;
    let mut i = lo;
    while i < hi
        invariant
            lo <= i <= hi <= cs@.len(),
            s == cs@.subrange(lo as int, hi as int),
            forall|j: int| lo <= j < i ==> is_digit(#[trigger] cs@[j]),
            acc == decimal_value(cs@.subrange(lo as int, i as int)),
        decreases hi - i,
    {
        let c = cs[i];
        assert(cs@.subrange(lo as int, i + 1).drop_last() =~= cs@.subrange(lo as int, i as int));
        if !('0' <= c && c <= '9') {
            assert(!is_digit(s[i - lo]));
            return None;
        }
        let d = (c as u32 - '0' as u32) as usize;
        proof {
            lemma_decimal_prefix(s, i + 1 - lo);
            assert(s.subrange(0, i + 1 - lo) =~= cs@.subrange(lo as int, i + 1));
        }
        match acc.checked_mul(10) {
            None => {
                return None;
            },
            Some(m) => match m.checked_add(d) {
                None => {
                    return None;
                },
                Some(v) => {
                    acc = v;
                },
            },
        }
        i = i + 1;
    }
    assert(s =~= cs@.subrange(lo as int, i as int));
    assert forall|j: int| 0 <= j < s.len() implies is_digit(#[trigger] s[j]) by {
        assert(s[j] == cs@[lo + j]);
    }
    Some(acc)
}

proof fn lemma_index_of(s: Seq<char>, c: char, k: int)
    requires
        0 <= k <= s.len(),
        forall|j: int| 0 <= j < k ==> s[j] != c,
        k == s.len() || s[k] == c,
    ensures
        index_of(s, c) == k,
    decreases s.len(),
{
    if s.len() > 0 && s[0] != c {
        assert forall|j: int| 0 <= j < k - 1 implies s.drop_first()[j] != c by {
            assert(s.drop_first()[j] == s[j + 1]);
        }
        lemma_index_of(s.drop_first(), c, k - 1);
    }
}

/// Whether `cs[lo..hi]` is the recognised field name.
fn is_content_length_key(cs: &Vec<char>, lo: usize, hi: usize) -> (r: bool)
    requires
        lo <= hi <= cs@.len(),
    ensures
        r == (cs@.subrange(lo as int, hi as int) == content_length_key()),
{
    let key: Vec<char> = vec!['C', 'o', 'n', 't', 'e', 'n', 't', '-', 'L', 'e', 'n', 'g', 't', 'h'];
    assert(key@ =~= content_length_key());
    if hi - lo != key.len() {
        return false;
    }
    let mut i: usize = 0;
    while i < key.len()
        invariant
            lo <= hi <= cs@.len(),
            hi - lo == key@.len(),
            key@ == content_length_key(),
            i <= key@.len(),
            forall|j: int| 0 <= j < i ==> cs@[lo + j] == key@[j],
        decreases key@.len() - i,
    {
        if cs[lo + i] != key[i] {
            assert(cs@.subrange(lo as int, hi as int)[i as int] != key@[i as int]);
            return false;
        }
        i = i + 1;
    }
    assert(cs@.subrange(lo as int, hi as int) =~= key@);
    true
}

impl HeaderField {
    /// Turns a field named `Content-Length` into its typed form; its value
    /// must then be a decimal number. Any other field is kept as it is.
    pub fn specialize(self) -> (r: Result<HeaderField, Error>)
        ensures
            match self {
                HeaderField::Other { name, value } => match specialize_spec(name@, value@) {
                    Some(f) => r matches Ok(g) && g@ == f,
                    None => r matches Err(Error::BadMessage),
                },
                HeaderField::Len(_) => r matches Ok(g) && g@ == self@,
            },
    {
        match self {
            HeaderField::Other { name, value } => {
                let ns = chars_of(name.as_str());
                if is_content_length_key(&ns, 0, ns.len()) {
                    assert(ns@.subrange(0, ns@.len() as int) =~= ns@);
                    let vs = chars_of(value.as_str());
                    assert(vs@.subrange(0, vs@.len() as int) =~= vs@);
                    match parse_usize(&vs, 0, vs.len()) {
                        Some(n) => Ok(HeaderField::Len(n)),
                        None => Err(Error::BadMessage),
                    }
                } else {
                    assert(ns@.subrange(0, ns@.len() as int) =~= ns@);
                    Ok(HeaderField::Other { name, value })
                }
            },
            HeaderField::Len(n) => Ok(HeaderField::Len(n)),
        }
    }

    /// Reads one header line, with or without its terminator: `Ok(None)` for
    /// the empty line that ends a header, else the field that it holds.
    pub fn parse_line(line: &str) -> (r: Result<Option<HeaderField>, Error>)
        ensures
            line_outcome(r) == parse_line_spec(line@),
            r is Err ==> r->Err_0 is BadMessage,
    {
        let cs = chars_of(line);
        let n = cs.len();
        let end = if n >= 2 && cs[n - 2] == '\r' && cs[n - 1] == '\n' {
            n - 2
        } else {
            n
        };
        let ghost c = line_content(line@);
        assert(c =~= cs@.subrange(0, end as int));
        if end == 0 {
            return Ok(None);
        }
        let mut k: usize = 0;
        while k < end && cs[k] != ':'
            invariant
                k <= end <= n == cs@.len(),
                forall|j: int| 0 <= j < k ==> cs@[j] != ':',
            decreases end - k,
        {
            k = k + 1;
        }
        proof {
            assert forall|j: int| 0 <= j < k implies c[j] != ':' by {
                assert(c[j] == cs@[j]);
            }
            lemma_index_of(c, ':', k as int);
        }
        if k == end {
            return Err(Error::BadMessage);
        }
        let mut j: usize = k + 1;
        while j < end
            invariant
                k < end <= n == cs@.len(),
                k + 1 <= j <= end,
                c == cs@.subrange(0, end as int),
                index_of(c, ':') == k,
                c == line_content(line@),
                forall|i: int| k + 1 <= i < j ==> cs@[i] != ':',
            decreases end - j,
        {
            if cs[j] == ':' {
                assert(c.subrange(k + 1, end as int)[j - k - 1] == ':');
                return Err(Error::BadMessage);
            }
            j = j + 1;
        }
        assert(c.subrange(0, k as int) =~= cs@.subrange(0, k as int));
        assert(c.subrange(k + 1, end as int) =~= cs@.subrange(k + 1, end as int));
        let (na, nb) = trim_bounds(&cs, 0, k);
        let (va, vb) = trim_bounds(&cs, k + 1, end);
        if na == nb || va == vb {
            return Err(Error::BadMessage);
        }
        let name = line.substring_char(na, nb).to_owned();
        let value = line.substring_char(va, vb).to_owned();
        match (HeaderField::Other { name, value }).specialize() {
            Ok(f) => Ok(Some(f)),
            Err(e) => Err(e),
        }
    }
}


// ---------------------------------------------------------------------------
// Headers
// ---------------------------------------------------------------------------

proof fn lemma_index_of_bound(s: Seq<char>, c: char)
    ensures
        index_of(s, c) <= s.len(),
    decreases s.len(),
{
    if s.len() > 0 && s[0] != c {
        lemma_index_of_bound(s.drop_first(), c);
    }
}

/// Number of characters of the first line of `s`, terminator included.
pub open spec fn line_len(s: Seq<char>) -> nat {
    if index_of(s, '\n') < s.len() {
        index_of(s, '\n') + 1
    } else {
        s.len()
    }
}

/// The fields read from the start of `s` up to the empty line that ends a
/// header, and the number of characters that this takes; `None` when a line
/// is malformed.
pub open spec fn read_fields_spec(s: Seq<char>) -> Option<(Seq<HeaderFieldView>, nat)>
    decreases s.len(),
{
    let e = line_len(s);
    match parse_line_spec(s.subrange(0, e as int)) {
        None => None,
        Some(None) => Some((seq![], e)),
        Some(Some(f)) => if e == 0 {
            None
        } else {
            match read_fields_spec(s.subrange(e as int, s.len() as int)) {
                None => None,
                Some((fs, k)) => Some((seq![f] + fs, e + k)),
            }
        },
    }
}

/// How many of `fs` are `Content-Length` fields.
pub open spec fn len_count(fs: Seq<HeaderFieldView>) -> nat
    decreases fs.len(),
{
    if fs.len() == 0 {
        0
    } else {
        len_count(fs.drop_last()) + if fs.last() is Len {
            1nat
        } else {
            0nat
        }
    }
}

/// The value of the last `Content-Length` field of `fs`.
pub open spec fn content_length_of(fs: Seq<HeaderFieldView>) -> usize
    decreases fs.len(),
{
    if fs.len() == 0 {
        0
    } else if fs.last() is Len {
        fs.last()->Len_0
    } else {
        content_length_of(fs.drop_last())
    }
}

/// The content length of a header made of `fs`: there must be exactly one
/// `Content-Length` field.
pub open spec fn header_len_of(fs: Seq<HeaderFieldView>) -> Option<usize> {
    if len_count(fs) == 1 {
        Some(content_length_of(fs))
    } else {
        None
    }
}

pub open spec fn is_suffix(t: Seq<char>, s: Seq<char>) -> bool {
    t.len() <= s.len() && t == s.subrange(s.len() - t.len(), s.len() as int)
}

/// A message header.
///
/// Besides `Content-Length`, which the protocol requires, a header may hold
/// fields that this library does not know; they are kept, in their order.
#[derive(Debug, Clone)]
pub struct Header {
    /// "The length of the content part in bytes"
    pub len: usize,
    /// The fields of the header, known or not, in their order.
    pub fields: Vec<HeaderField>,
}

impl Header {
    pub open spec fn fields_view(&self) -> Seq<HeaderFieldView> {
        self.fields@.map_values(|f: HeaderField| f@)
    }

    /// Exactly one field is `Content-Length`, and `len` is its value.
    pub open spec fn wf(&self) -> bool {
        header_len_of(self.fields_view()) == Some(self.len)
    }

    /// Builds a header from its fields; `None` unless exactly one of them is
    /// `Content-Length`.
    pub fn from_raw_fields(fields: Vec<HeaderField>) -> (r: Option<Header>)
        ensures
            match header_len_of(fields@.map_values(|f: HeaderField| f@)) {
                Some(n) => r matches Some(h) && h.len == n && h.fields_view()
                    == fields@.map_values(|f: HeaderField| f@),
                None => r is None,
            },
            r matches Some(h) ==> h.wf(),
    {
        let ghost v = fields@.map_values(|f: HeaderField| f@);
        let mut count: usize = 0;
        let mut len: usize = 0;
        let mut i: usize = 0;
        while i < fields.len()
            invariant
                i <= fields@.len(),
                v == fields@.map_values(|f: HeaderField| f@),
                count == len_count(v.subrange(0, i as int)),
                len == content_length_of(v.subrange(0, i as int)),
                count <= i,
            decreases fields@.len() - i,
        {
            assert(v.subrange(0, i + 1).drop_last() =~= v.subrange(0, i as int));
            match &fields[i] {
                HeaderField::Len(n) => {
                    count = count + 1;
                    len = *n;
                },
                HeaderField::Other { .. } => {},
            }
            i = i + 1;
        }
        assert(v.subrange(0, i as int) =~= v);
        if count == 1 {
            Some(Header { len, fields })
        } else {
            None
        }
    }

    /// A header whose one field is `Content-Length: len`.
    pub fn new(len: usize) -> (r: Header)
        ensures
            r.len == len,
            r.fields_view() == seq![HeaderFieldView::Len(len)],
            r.wf(),
    {
        let fields = vec![HeaderField::Len(len)];
        let r = Header { len, fields };
        assert(r.fields_view() =~= seq![HeaderFieldView::Len(len)]);
        assert(r.fields_view().drop_last() =~= Seq::<HeaderFieldView>::empty());
        assert(r.fields_view().last() == HeaderFieldView::Len(len));
        assert(len_count(Seq::<HeaderFieldView>::empty()) == 0);
        assert(len_count(r.fields_view()) == 1);
        assert(content_length_of(r.fields_view()) == len);
        r
    }
}

impl HeaderField {
    /// Reads the first line of `input`, terminator included, and takes it
    /// off `input`: `Ok(None)` for the empty line that ends a header, else
    /// the field that the line holds.
    pub fn read_from<'a>(input: &mut &'a str) -> (r: Result<Option<HeaderField>, Error>)
        ensures
            (*final(input))@ == (*old(input))@.subrange(
                line_len((*old(input))@) as int,
                (*old(input))@.len() as int,
            ),
            line_outcome(r) == parse_line_spec(
                (*old(input))@.subrange(0, line_len((*old(input))@) as int),
            ),
            r is Err ==> r->Err_0 is BadMessage,
    {
        let s: &'a str = *input;
        let n = s.unicode_len();
        let mut i: usize = 0;
        while i < n && s.get_char(i) != '\n'
            invariant
                n == s@.len(),
                i <= n,
                forall|j: int| 0 <= j < i ==> s@[j] != '\n',
            decreases n - i,
        {
            i = i + 1;
        }
        proof {
            lemma_index_of(s@, '\n', i as int);
        }
        let e = if i < n {
            i + 1
        } else {
            n
        };
        let line = s.substring_char(0, e);
        *input = s.substring_char(e, n);
        HeaderField::parse_line(line)
    }
}

impl Header {
    /// Reads a header from the start of `input` and takes it off `input`.
    ///
    /// Fails with `BadMessage` when a line is malformed or when the fields
    /// do not hold exactly one `Content-Length`.
    pub fn read_from<'a>(input: &mut &'a str) -> (r: Result<Header, Error>)
        ensures
            is_suffix((*final(input))@, (*old(input))@),
            r is Err ==> r->Err_0 is BadMessage,
            match read_fields_spec((*old(input))@) {
                None => r is Err,
                Some((fs, k)) => (*final(input))@ == (*old(input))@.subrange(
                    k as int,
                    (*old(input))@.len() as int,
                ) && match header_len_of(fs) {
                    Some(n) => r matches Ok(h) && h.len == n && h.fields_view() == fs,
                    None => r is Err,
                },
            },
    {
        let ghost s0 = (*input)@;
        let mut fields: Vec<HeaderField> = Vec::new();
        let ghost mut fv: Seq<HeaderFieldView> = seq![];
        let ghost mut consumed: nat = 0;
        loop
            invariant
                s0 == (*old(input))@,
                consumed <= s0.len(),
                (*input)@ == s0.subrange(consumed as int, s0.len() as int),
                fv == fields@.map_values(|f: HeaderField| f@),
                read_fields_spec(s0) == match read_fields_spec((*input)@) {
                    None => None,
                    Some((fs, k)) => Some((fv + fs, consumed + k)),
                },
            decreases (*input)@.len(),
        {
            let ghost s = (*input)@;
            let ghost e = line_len(s);
            proof {
                lemma_index_of_bound(s, '\n');
            }
            let ghost c0 = consumed;
            let line = HeaderField::read_from(input);
            proof {
                assert(s0.subrange((consumed + e) as int, s0.len() as int) =~= s.subrange(
                    e as int,
                    s.len() as int,
                ));
                consumed = consumed + e;
                assert((*input)@ == s0.subrange(consumed as int, s0.len() as int));
                assert(is_suffix((*input)@, s0));
            }
            match line {
                Err(err) => {
                    return Err(err);
                },
                Ok(None) => {
                    assert(read_fields_spec(s) == Some((Seq::<HeaderFieldView>::empty(), e)));
                    assert(fv + seq![] =~= fv);
                    assert(read_fields_spec(s0) == Some((fv, consumed)));
                    return match Header::from_raw_fields(fields) {
                        Some(h) => Ok(h),
                        None => Err(Error::BadMessage),
                    };
                },
                Ok(Some(f)) => {
                    proof {
                        let fs_rest = read_fields_spec((*input)@);
                        if let Some((fs, k)) = fs_rest {
                            assert(fv + (seq![f@] + fs) =~= fv.push(f@) + fs);
                        }
                        fv = fv.push(f@);
                    }
                    fields.push(f);
                    assert(fields@.map_values(|f: HeaderField| f@) =~= fv);
                },
            }
        }
    }
}

/// Collects the fields of a header as its lines arrive, one at a time.
pub struct HeaderReader {
    fields: Vec<HeaderField>,
}

impl HeaderReader {
    /// The fields read so far.
    pub closed spec fn spec_fields(&self) -> Seq<HeaderFieldView> {
        self.fields@.map_values(|f: HeaderField| f@)
    }

    pub fn new() -> (r: HeaderReader)
        ensures
            r.spec_fields() == Seq::<HeaderFieldView>::empty(),
    {
        let r = HeaderReader { fields: Vec::new() };
        assert(r.spec_fields() =~= Seq::<HeaderFieldView>::empty());
        r
    }

    /// Takes the next line of a header: `Ok(None)` while the header goes on,
    /// the header once its closing empty line has come.
    pub fn push_line(&mut self, line: &str) -> (r: Result<Option<Header>, Error>)
        ensures
            match parse_line_spec(line@) {
                None => r matches Err(Error::BadMessage),
                Some(Some(f)) => r matches Ok(None) && final(self).spec_fields() == old(
                    self,
                ).spec_fields().push(f),
                Some(None) => match header_len_of(old(self).spec_fields()) {
                    Some(n) => r matches Ok(Some(h)) && h.len == n && h.fields_view() == old(
                        self,
                    ).spec_fields(),
                    None => r matches Err(Error::BadMessage),
                },
            },
    {
        match HeaderField::parse_line(line) {
            Err(e) => Err(e),
            Ok(Some(f)) => {
                self.fields.push(f);
                assert(final(self).spec_fields() =~= old(self).spec_fields().push(f@));
                Ok(None)
            },
            Ok(None) => {
                let mut fields: Vec<HeaderField> = Vec::new();
                std::mem::swap(&mut fields, &mut self.fields);
                match Header::from_raw_fields(fields) {
                    Some(h) => Ok(Some(h)),
                    None => Err(Error::BadMessage),
                }
            },
        }
    }
}

// ---------------------------------------------------------------------------
// Writing
// ---------------------------------------------------------------------------

/// The line that writes `f`.
pub open spec fn field_text(f: HeaderFieldView) -> Seq<char> {
    match f {
        HeaderFieldView::Len(n) => content_length_key() + seq![':'] + to_decimal(n as nat) + crlf(),
        HeaderFieldView::Other(name, value) => name + seq![':'] + value + crlf(),
    }
}

/// The lines that write `fs`, in their order.
pub open spec fn fields_text(fs: Seq<HeaderFieldView>) -> Seq<char>
    decreases fs.len(),
{
    if fs.len() == 0 {
        seq![]
    } else {
        field_text(fs[0]) + fields_text(fs.drop_first())
    }
}

/// The text of a header made of `fs`: its lines, then an empty line.
pub open spec fn header_text(fs: Seq<HeaderFieldView>) -> Seq<char> {
    fields_text(fs) + crlf()
}

proof fn lemma_fields_text_push(fs: Seq<HeaderFieldView>, f: HeaderFieldView)
    ensures
        fields_text(fs.push(f)) == fields_text(fs) + field_text(f),
    decreases fs.len(),
{
    if fs.len() == 0 {
        assert(fs.push(f).drop_first() =~= Seq::<HeaderFieldView>::empty());
        assert(fs.push(f)[0] == f);
        assert(fields_text(fs.push(f).drop_first()) == Seq::<char>::empty());
        assert(fields_text(fs) == Seq::<char>::empty());
        assert(fields_text(fs.push(f)) =~= fields_text(fs) + field_text(f));
    } else {
        lemma_fields_text_push(fs.drop_first(), f);
        assert(fs.push(f).drop_first() =~= fs.drop_first().push(f));
        assert(fields_text(fs.push(f)) =~= fields_text(fs) + field_text(f));
    }
}

fn digit_str(d: usize) -> (r: &'static str)
    requires
        d < 10,
    ensures
        r@ == seq![digit_char(d as nat)],
{
    if d == 0 {
        proof {
            reveal_strlit("0");
        }
        assert("0"@ =~= seq!['0']);
        "0"
    } else if d == 1 {
        proof {
            reveal_strlit("1");
        }
        assert("1"@ =~= seq!['1']);
        "1"
    } else if d == 2 {
        proof {
            reveal_strlit("2");
        }
        assert("2"@ =~= seq!['2']);
        "2"
    } else if d == 3 {
        proof {
            reveal_strlit("3");
        }
        assert("3"@ =~= seq!['3']);
        "3"
    } else if d == 4 {
        proof {
            reveal_strlit("4");
        }
        assert("4"@ =~= seq!['4']);
        "4"
    } else if d == 5 {
        proof {
            reveal_strlit("5");
        }
        assert("5"@ =~= seq!['5']);
        "5"
    } else if d == 6 {
        proof {
            reveal_strlit("6");
        }
        assert("6"@ =~= seq!['6']);
        "6"
    } else if d == 7 {
        proof {
            reveal_strlit("7");
        }
        assert("7"@ =~= seq!['7']);
        "7"
    } else if d == 8 {
        proof {
            reveal_strlit("8");
        }
        assert("8"@ =~= seq!['8']);
        "8"
    } else {
        proof {
            reveal_strlit("9");
        }
        assert("9"@ =~= seq!['9']);
        "9"
    }
}

fn push_decimal(out: &mut String, n: usize)
    ensures
        final(out)@ == old(out)@ + to_decimal(n as nat),
    decreases n,
{
    if n >= 10 {
        push_decimal(out, n / 10);
    }
    out.append(digit_str(n % 10));
    assert(final(out)@ =~= old(out)@ + to_decimal(n as nat));
}

fn push_crlf(out: &mut String)
    ensures
        final(out)@ == old(out)@ + crlf(),
{
    proof {
        reveal_strlit("\r\n");
    }
    assert("\r\n"@ =~= crlf());
    out.append("\r\n");
}

impl HeaderField {
    /// Appends the line that writes this field to `out`.
    pub fn write_to(&self, out: &mut String)
        ensures
            final(out)@ == old(out)@ + field_text(self@),
    {
        match self {
            HeaderField::Len(n) => {
                proof {
                    reveal_strlit("Content-Length:");
                }
                assert("Content-Length:"@ =~= content_length_key() + seq![':']);
                out.append("Content-Length:");
                push_decimal(out, *n);
            },
            HeaderField::Other { name, value } => {
                proof {
                    reveal_strlit(":");
                }
                assert(":"@ =~= seq![':']);
                out.append(name.as_str());
                out.append(":");
                out.append(value.as_str());
            },
        }
        push_crlf(out);
        assert(final(out)@ =~= old(out)@ + field_text(self@));
    }
}

impl Header {
    /// The text of this header: each field as `name:value\r\n`, in order,
    /// then the empty line `\r\n`.
    pub fn into_string(&self) -> (r: String)
        ensures
            r@ == header_text(self.fields_view()),
    {
        let ghost v = self.fields_view();
        let mut out = String::new();
        let mut i: usize = 0;
        while i < self.fields.len()
            invariant
                i <= self.fields@.len(),
                v == self.fields_view(),
                out@ == fields_text(v.subrange(0, i as int)),
            decreases self.fields@.len() - i,
        {
            proof {
                lemma_fields_text_push(v.subrange(0, i as int), v[i as int]);
                assert(v.subrange(0, i as int).push(v[i as int]) =~= v.subrange(0, i + 1));
            }
            self.fields[i].write_to(&mut out);
            i = i + 1;
        }
        assert(v.subrange(0, i as int) =~= v);
        push_crlf(&mut out);
        out
    }
}

// ---------------------------------------------------------------------------
// Reading back what was written
// ---------------------------------------------------------------------------

/// A name or a value that its own line reads back as: not empty, without
/// white space at either end, and free of `:` and of line breaks.
pub open spec fn part_wf(s: Seq<char>) -> bool {
    &&& s.len() > 0
    &&& !is_ws(s[0])
    &&& !is_ws(s.last())
    &&& lacks(s, ':')
    &&& lacks(s, '\n')
}

/// A field that its own line reads back as. A field with the recognised
/// name is only ever held as `Len`.
pub open spec fn field_wf(f: HeaderFieldView) -> bool {
    match f {
        HeaderFieldView::Len(_) => true,
        HeaderFieldView::Other(name, value) => part_wf(name) && part_wf(value) && name
            != content_length_key(),
    }
}

proof fn lemma_part_trim(s: Seq<char>)
    requires
        part_wf(s),
    ensures
        trim(s) == s,
{
}

proof fn lemma_digit(d: nat)
    requires
        d < 10,
    ensures
        is_digit(digit_char(d)),
        digit_value(digit_char(d)) == d,
{
}

proof fn lemma_to_decimal(n: nat)
    ensures
        to_decimal(n).len() > 0,
        forall|i: int| 0 <= i < to_decimal(n).len() ==> is_digit(#[trigger] to_decimal(n)[i]),
        decimal_value(to_decimal(n)) == n,
    decreases n,
{
    lemma_digit(n % 10);
    if n >= 10 {
        lemma_to_decimal(n / 10);
        assert(to_decimal(n).drop_last() =~= to_decimal(n / 10));
        assert(to_decimal(n).last() == digit_char(n % 10));
        assert((n / 10) * 10 + n % 10 == n) by (nonlinear_arith);
        assert(decimal_value(to_decimal(n)) == decimal_value(to_decimal(n / 10)) * 10
            + digit_value(digit_char(n % 10)));
    } else {
        assert(to_decimal(n).drop_last() =~= Seq::<char>::empty());
        assert(decimal_value(Seq::<char>::empty()) == 0);
        assert(n % 10 == n);
        assert(to_decimal(n).last() == digit_char(n));
        assert(decimal_value(to_decimal(n)) == 0 * 10 + digit_value(digit_char(n)));
    }
}

pub(crate) proof fn lemma_decimal_part(n: usize)
    ensures
        part_wf(to_decimal(n as nat)),
        parse_decimal(to_decimal(n as nat)) == Some(n),
{
    lemma_to_decimal(n as nat);
    let t = to_decimal(n as nat);
    assert(is_digit(t[0]));
    assert(t[0] != '+');
    assert(is_digit(t[t.len() - 1]));
}

pub(crate) proof fn lemma_key_part()
    ensures
        part_wf(content_length_key()),
{
    let k = content_length_key();
    assert forall|i: int| 0 <= i < k.len() implies k[i] != ':' && k[i] != '\n' by {
        assert(k[i] == 'C' || k[i] == 'o' || k[i] == 'n' || k[i] == 't' || k[i] == 'e' || k[i]
            == '-' || k[i] == 'L' || k[i] == 'g' || k[i] == 'h');
    }
}

/// The line `name:value` reads as the field that `name` and `value` make,
/// and ends where its text ends.
pub(crate) proof fn lemma_line_of(name: Seq<char>, value: Seq<char>, rest: Seq<char>)
    requires
        part_wf(name),
        part_wf(value),
    ensures
        line_len(name + seq![':'] + value + crlf() + rest) == (name + seq![':'] + value
            + crlf()).len(),
        parse_line_spec(name + seq![':'] + value + crlf()) == match specialize_spec(name, value) {
            Some(f) => Some(Some(f)),
            None => None,
        },
{
    let c = name + seq![':'] + value;
    let t = c + crlf();
    let s = t + rest;
    assert(name + seq![':'] + value + crlf() + rest =~= s);
    assert forall|j: int| 0 <= j < t.len() - 1 implies s[j] != '\n' by {
        if j < name.len() {
            assert(s[j] == name[j]);
        } else if j == name.len() {
            assert(s[j] == ':');
        } else if j < c.len() {
            assert(s[j] == value[j - name.len() - 1]);
        } else {
            assert(s[j] == '\r');
        }
    }
    assert(s[t.len() - 1] == '\n');
    lemma_index_of(s, '\n', t.len() - 1);
    assert(line_content(t) =~= c);
    assert forall|j: int| 0 <= j < name.len() implies c[j] != ':' by {
        assert(c[j] == name[j]);
    }
    lemma_index_of(c, ':', name.len() as int);
    assert(c.subrange(0, name.len() as int) =~= name);
    assert(c.subrange(name.len() + 1int, c.len() as int) =~= value);
    lemma_part_trim(name);
    lemma_part_trim(value);
}

/// Reading the line that writes a well-formed field gives that field back,
/// and the line ends where its text ends.
proof fn lemma_field_line(f: HeaderFieldView, rest: Seq<char>)
    requires
        field_wf(f),
    ensures
        line_len(field_text(f) + rest) == field_text(f).len(),
        parse_line_spec(field_text(f)) == Some(Some(f)),
{
    match f {
        HeaderFieldView::Len(n) => {
            lemma_decimal_part(n);
            lemma_key_part();
            lemma_line_of(content_length_key(), to_decimal(n as nat), rest);
        },
        HeaderFieldView::Other(name, value) => {
            lemma_line_of(name, value, rest);
        },
    }
}

/// Reading back the text of a header made of well-formed fields gives the
/// same fields, in the same order, and stops right after that text: what
/// follows it is left for the body.
pub proof fn lemma_read_written_fields(fs: Seq<HeaderFieldView>, rest: Seq<char>)
    requires
        forall|i: int| 0 <= i < fs.len() ==> field_wf(#[trigger] fs[i]),
    ensures
        read_fields_spec(header_text(fs) + rest) == Some((fs, header_text(fs).len())),
    decreases fs.len(),
{
    let s = header_text(fs) + rest;
    if fs.len() == 0 {
        assert(header_text(fs) =~= crlf());
        assert(s[0] != '\n' && s[1] == '\n');
        lemma_index_of(s, '\n', 1);
        assert(s.subrange(0, 2) =~= crlf());
        assert(line_content(crlf()) =~= Seq::<char>::empty());
    } else {
        let f = fs[0];
        let tail = fs.drop_first();
        assert forall|i: int| 0 <= i < tail.len() implies field_wf(#[trigger] tail[i]) by {
            assert(tail[i] == fs[i + 1]);
        }
        lemma_read_written_fields(tail, rest);
        let after = header_text(tail) + rest;
        assert(s =~= field_text(f) + after);
        lemma_field_line(f, after);
        let e = field_text(f).len();
        assert(s.subrange(0, e as int) =~= field_text(f));
        assert(s.subrange(e as int, s.len() as int) =~= after);
        assert(seq![f] + tail =~= fs);
    }
}

/// A header written by `into_string` reads back, by `read_from`, as the same
/// header: the same fields in the same order and the same content length.
pub proof fn lemma_header_round_trip(h: Header, rest: Seq<char>)
    requires
        h.wf(),
        forall|i: int| 0 <= i < h.fields_view().len() ==> field_wf(#[trigger] h.fields_view()[i]),
    ensures
        read_fields_spec(header_text(h.fields_view()) + rest) == Some(
            (h.fields_view(), header_text(h.fields_view()).len()),
        ),
        header_len_of(h.fields_view()) == Some(h.len),
{
    lemma_read_written_fields(h.fields_view(), rest);
}

} // verus!
