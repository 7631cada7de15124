use vstd::prelude::*;

use vstd::std_specs::iter::IteratorSpec;
use crate::entry::close_char;
use crate::entry::entries_ok;
use crate::entry::entries_text;
use crate::entry::entries_wf;
use crate::entry::entry_span;
use crate::entry::entry_ok;
use crate::entry::entry_text;
use crate::entry::lemma_entries_push;
use crate::entry::open_char;
use crate::entry::Delimiter;
use crate::entry::Entry;
use crate::entry::Ident;
use crate::entry::Literal;
use crate::entry::LiteralValue;
use crate::entry::SingleCharPunct;
use crate::entry::Spacing;
use crate::entry::TokenStream;
use crate::error::ErrorKind;
use crate::span::SourceFile;
use crate::span::Span;
use crate::token::punct_char;
use crate::token::punct_of;
use crate::token::PunctKind;

verus! {

pub open spec fn is_space(c: char) -> bool {
    c == ' ' || c == '\t' || c == '\n' || c == '\r'
}

pub open spec fn is_digit(c: char) -> bool {
    '0' <= c <= '9'
}

pub open spec fn is_ident_start(c: char) -> bool {
    ('a' <= c <= 'z') || ('A' <= c <= 'Z') || c == '_'
}

pub open spec fn is_ident_char(c: char) -> bool {
    is_ident_start(c) || is_digit(c)
}

pub open spec fn is_open(c: char) -> bool {
    c == '(' || c == '{' || c == '['
}

/// The spacing of a punctuation character followed by `next` (if any).
pub open spec fn spacing_before(next: Option<char>) -> Spacing {
    match next {
        Some(c) => if punct_of(c) is Some {
            Spacing::Joint
        } else {
            Spacing::Alone
        },
        None => Spacing::Alone,
    }
}

/// A punctuation entry covers one character, which is its kind's, and is
/// joint exactly when the character right after it is recognised punctuation.
pub open spec fn punct_entry_ok(e: Entry, chars: Seq<char>) -> bool {
    let p = e->Punct_0;
    let i = p.span.start as int;
    &&& p.span.end == i + 1
    &&& i < chars.len()
    &&& chars[i] == punct_char(p.kind)
    &&& p.spacing == spacing_before(
        if i + 1 < chars.len() {
            Some(chars[i + 1])
        } else {
            None
        },
    )
}

/// Every punctuation entry of `entries` is as `punct_entry_ok` says.
pub open spec fn puncts_ok(entries: Seq<Entry>, chars: Seq<char>) -> bool {
    forall|k: int| 0 <= k < entries.len() && (#[trigger] entries[k]) is Punct ==> punct_entry_ok(entries[k], chars)
}

/// The characters an entry was read from. This is its span, but for an
/// unclosed group, which runs from its opening delimiter to the end.
pub open spec fn entry_extent(e: Entry) -> Span {
    match e {
        Entry::Error(ErrorKind::UnterminatedGroup { start, span }) => Span {
            start: start.start,
            end: span.end,
        },
        _ => entry_span(e),
    }
}

/// The entries were read one after another from `from` on, each where the
/// one before it ended.
pub open spec fn tiles(entries: Seq<Entry>, from: int) -> bool {
    forall|k: int|
        0 <= k < entries.len() ==> {
            &&& entry_extent(#[trigger] entries[k]).start == if k == 0 {
                from
            } else {
                entry_extent(entries[k - 1]).end as int
            }
            &&& entry_extent(entries[k]).start <= entry_extent(entries[k]).end
            &&& entries[k] is End ==> entry_extent(entries[k]).start == entry_extent(entries[k]).end
        }
}

/// What an entry is follows from the character it starts at: a maximal run
/// of whitespace or of identifier characters; a number; a string or
/// character literal, or the error where one is malformed; a group closed
/// by the matching delimiter, or an unclosed-group error from its opening
/// delimiter to the end; punctuation; otherwise an unknown character.
#[verifier::opaque]
pub open spec fn entry_kind_ok(e: Entry, chars: Seq<char>) -> bool {
    let i = entry_extent(e).start as int;
    let j = entry_extent(e).end as int;
    let c = chars[i];
    &&& 0 <= i < j <= chars.len()
    &&& if is_space(c) {
        e is WhiteSpace && (j == chars.len() || !is_space(chars[j]))
    } else if is_ident_start(c) {
        e is Ident && (j == chars.len() || !is_ident_char(chars[j]))
    } else if is_digit(c) {
        (e is Literal && (e->Literal_0.value is Int || e->Literal_0.value is Float)) || (e is Error
            && e->Error_0 is Custom)
    } else if c == '"' {
        (e is Literal && e->Literal_0.value is String) || (e is Error
            && e->Error_0 is UnterminatedString)
    } else if c == '\'' {
        (e is Literal && e->Literal_0.value is Char) || (e is Error && (e->Error_0 is UnterminatedChar
            || e->Error_0 is LongChar))
    } else if is_open(c) {
        (e is Group && open_char(e->Group_delimiter) == c && e->Group_close.start < chars.len()
            && chars[e->Group_close.start as int] == close_char(e->Group_delimiter)) || (e is Error
            && e->Error_0 is UnterminatedGroup && e->Error_0->UnterminatedGroup_start == (Span {
            start: i as usize,
            end: (i + 1) as usize,
        }) && e->Error_0->UnterminatedGroup_span == (Span {
            start: chars.len() as usize,
            end: chars.len() as usize,
        }))
    } else if punct_of(c) is Some {
        e is Punct
    } else {
        e is Error && e->Error_0 is UnknownCharacter
    }
}

/// Every entry but the end is as `entry_kind_ok` says.
pub open spec fn kinds_ok(s: Seq<Entry>, chars: Seq<char>) -> bool {
    forall|k: int| 0 <= k < s.len() && !(#[trigger] s[k] is End) ==> entry_kind_ok(s[k], chars)
}

/// A group's interior was read right after its opening delimiter and up to
/// its closing one, and so on at every depth.
pub open spec fn entry_tight(e: Entry) -> bool
    decreases e,
{
    match e {
        Entry::Group { open, close, inner, .. } => {
            &&& tiles(inner.tokens@, open.end as int)
            &&& entries_tight(inner.tokens@)
            &&& inner.tokens@.len() > 0
            &&& entry_extent(inner.tokens@[inner.tokens@.len() - 1]) == (Span {
                start: close.start,
                end: close.start,
            })
        },
        _ => true,
    }
}

pub open spec fn entries_tight(s: Seq<Entry>) -> bool
    decreases s,
{
    if s.len() == 0 {
        true
    } else {
        entries_tight(s.subrange(0, s.len() - 1)) && entry_tight(s[s.len() - 1])
    }
}

/// Relies on `Iterator::collect` into a `String`: the characters in order.
#[verifier::external_body]
pub(crate) fn string_from_chars(v: &Vec<char>) -> (r: String)
    ensures
        r@ == v@,
{
    v.iter().collect()
}

/// The characters of `s`, in order.
pub(crate) fn chars_of(s: &str) -> (r: Vec<char>)
    ensures
        r@ == s@,
{
    let mut it = s.chars();
    let mut v: Vec<char> = Vec::new();
    loop
        invariant
            v@ + it.remaining() == s@,
        ensures
            v@ == s@,
        decreases s@.len() - v@.len(),
    {
        match it.next() {
            Some(c) => {
                v.push(c);
            },
            None => {
                assert(v@ =~= s@);
                break;
            },
        }
    }
    v
}

proof fn lemma_punct_char_of(c: char)
    requires
        punct_of(c) is Some,
    ensures
        punct_char(punct_of(c)->0) == c,
{
}

proof fn lemma_split(chars: Seq<char>, a: int, b: int, c: int)
    requires
        0 <= a <= b <= c <= chars.len(),
    ensures
        chars.subrange(a, c) == chars.subrange(a, b) + chars.subrange(b, c),
{
    assert(chars.subrange(a, c) =~= chars.subrange(a, b) + chars.subrange(b, c));
}

fn copy_range(chars: &Vec<char>, from: usize, to: usize) -> (r: Vec<char>)
    requires
        from <= to <= chars@.len(),
    ensures
        r@ == chars@.subrange(from as int, to as int),
{
    let mut v: Vec<char> = Vec::new();
    let mut k: usize = from;
    while k < to
        invariant
            from <= k <= to <= chars@.len(),
            v@ == chars@.subrange(from as int, k as int),
        decreases to - k,
    {
        v.push(chars[k]);
        k = k + 1;
        assert(v@ =~= chars@.subrange(from as int, k as int));
    }
    v
}

fn text_of(chars: &Vec<char>, from: usize, to: usize) -> (r: String)
    requires
        from <= to <= chars@.len(),
    ensures
        r@ == chars@.subrange(from as int, to as int),
{
    let v = copy_range(chars, from, to);
    string_from_chars(&v)
}

fn is_space_exec(c: char) -> (r: bool)
    ensures
        r == is_space(c),
{
    c == ' ' || c == '\t' || c == '\n' || c == '\r'
}

fn is_digit_exec(c: char) -> (r: bool)
    ensures
        r == is_digit(c),
{
    '0' <= c && c <= '9'
}

fn is_ident_start_exec(c: char) -> (r: bool)
    ensures
        r == is_ident_start(c),
{
    ('a' <= c && c <= 'z') || ('A' <= c && c <= 'Z') || c == '_'
}

fn is_open_exec(c: char) -> (r: bool)
    ensures
        r == is_open(c),
{
    c == '(' || c == '{' || c == '['
}

/// The spacing of the punctuation character at `i`.
pub fn spacing_at(chars: &Vec<char>, i: usize) -> (r: Spacing)
    requires
        i < chars@.len(),
    ensures
        r == spacing_before(
            if i + 1 < chars@.len() {
                Some(chars@[i + 1])
            } else {
                None
            },
        ),
{
    if i < chars.len() - 1 && PunctKind::from_char(chars[i + 1]).is_some() {
        Spacing::Joint
    } else {
        Spacing::Alone
    }
}

/// The end of the run of whitespace from `i` on.
fn scan_spaces(chars: &Vec<char>, i: usize) -> (j: usize)
    requires
        i <= chars@.len(),
    ensures
        i <= j <= chars@.len(),
        forall|k: int| i <= k < j ==> is_space(#[trigger] chars@[k]),
        j < chars@.len() ==> !is_space(chars@[j as int]),
{
    let mut j = i;
    while j < chars.len() && is_space_exec(chars[j])
        invariant
            i <= j <= chars@.len(),
            forall|k: int| i <= k < j ==> is_space(#[trigger] chars@[k]),
        decreases chars@.len() - j,
    {
        j = j + 1;
    }
    j
}

fn scan_ident(chars: &Vec<char>, i: usize) -> (j: usize)
    requires
        i <= chars@.len(),
    ensures
        i <= j <= chars@.len(),
        forall|k: int| i <= k < j ==> is_ident_char(#[trigger] chars@[k]),
        j < chars@.len() ==> !is_ident_char(chars@[j as int]),
{
    let mut j = i;
    while j < chars.len() && (is_ident_start_exec(chars[j]) || is_digit_exec(chars[j]))
        invariant
            i <= j <= chars@.len(),
            forall|k: int| i <= k < j ==> is_ident_char(#[trigger] chars@[k]),
        decreases chars@.len() - j,
    {
        j = j + 1;
    }
    j
}

fn scan_digits(chars: &Vec<char>, i: usize) -> (j: usize)
    requires
        i <= chars@.len(),
    ensures
        i <= j <= chars@.len(),
        forall|k: int| i <= k < j ==> is_digit(#[trigger] chars@[k]),
        j < chars@.len() ==> !is_digit(chars@[j as int]),
{
    let mut j = i;
    while j < chars.len() && is_digit_exec(chars[j])
        invariant
            i <= j <= chars@.len(),
            forall|k: int| i <= k < j ==> is_digit(#[trigger] chars@[k]),
        decreases chars@.len() - j,
    {
        j = j + 1;
    }
    j
}


/// The number that a run of decimal digits stands for.
pub open spec fn digits_value(s: Seq<char>) -> int
    decreases s.len(),
{
    if s.len() == 0 {
        0
    } else {
        digits_value(s.subrange(0, s.len() - 1)) * 10 + (s[s.len() - 1] as int - '0' as int)
    }
}

proof fn lemma_digits_value_nonneg(s: Seq<char>)
    requires
        forall|k: int| 0 <= k < s.len() ==> is_digit(#[trigger] s[k]),
    ensures
        digits_value(s) >= 0,
    decreases s.len(),
{
    if s.len() > 0 {
        let t = s.subrange(0, s.len() - 1);
        assert forall|k: int| 0 <= k < t.len() implies is_digit(#[trigger] t[k]) by {
            assert(t[k] == s[k]);
        }
        lemma_digits_value_nonneg(t);
    }
}

/// A run of digits is worth at least as much as any prefix of it.
proof fn lemma_digits_value_grows(s: Seq<char>, p: int)
    requires
        0 <= p <= s.len(),
        forall|k: int| 0 <= k < s.len() ==> is_digit(#[trigger] s[k]),
    ensures
        digits_value(s) >= digits_value(s.subrange(0, p)),
    decreases s.len(),
{
    if p < s.len() {
        let t = s.subrange(0, s.len() - 1);
        assert forall|k: int| 0 <= k < t.len() implies is_digit(#[trigger] t[k]) by {
            assert(t[k] == s[k]);
        }
        lemma_digits_value_grows(t, p);
        assert(t.subrange(0, p) =~= s.subrange(0, p));
        lemma_digits_value_nonneg(t);
        assert(is_digit(s[s.len() - 1]));
    } else {
        assert(s.subrange(0, p) =~= s);
    }
}

/// The value of the digits `chars[i..j]`, or `None` where it exceeds `i64`.
fn int_value(chars: &Vec<char>, i: usize, j: usize) -> (r: Option<i64>)
    requires
        i <= j <= chars@.len(),
        forall|k: int| i <= k < j ==> is_digit(#[trigger] chars@[k]),
    ensures
        r is Some <==> digits_value(chars@.subrange(i as int, j as int)) <= i64::MAX,
        r is Some ==> r->0 == digits_value(chars@.subrange(i as int, j as int)),
{
    let mut value: i64 = 0;
    let mut k: usize = i;
    while k < j
        invariant
            i <= k <= j <= chars@.len(),
            forall|m: int| i <= m < j ==> is_digit(#[trigger] chars@[m]),
            value as int == digits_value(chars@.subrange(i as int, k as int)),
            value >= 0,
        decreases j - k,
    {
        let d = (chars[k] as u32 - '0' as u32) as i64;
        let ghost prev = chars@.subrange(i as int, k as int);
        let ghost next = chars@.subrange(i as int, k + 1);
        assert(next.subrange(0, next.len() - 1) =~= prev);
        assert(digits_value(next) == digits_value(prev) * 10 + d);
        if value > (i64::MAX - d) / 10 {
            proof {
                lemma_digits_value_grows(chars@.subrange(i as int, j as int), k + 1 - i);
                assert(chars@.subrange(i as int, j as int).subrange(0, k + 1 - i) =~= next);
            }
            return None;
        }
        value = value * 10 + d;
        k = k + 1;
    }
    Some(value)
}


/// A literal written as `text` has the value `value`.
pub open spec fn literal_value_ok(value: LiteralValue, text: Seq<char>) -> bool {
    match value {
        LiteralValue::Int(v) => v == digits_value(text),
        LiteralValue::Float(t) => t@ == text,
        LiteralValue::String(t) => text == seq!['"'] + t@ + seq!['"'],
        LiteralValue::Char(c) => text == seq!['\'', c, '\''],
    }
}

/// Every literal entry of `entries` has the value its text spells.
pub open spec fn literals_ok(entries: Seq<Entry>) -> bool {
    forall|k: int|
        0 <= k < entries.len() && (#[trigger] entries[k]) is Literal ==> literal_value_ok(
            entries[k]->Literal_0.value,
            entries[k]->Literal_0.text@,
        )
}

fn literal(chars: &Vec<char>, value: LiteralValue, i: usize, j: usize) -> (r: Entry)
    requires
        i <= j <= chars@.len(),
        literal_value_ok(value, chars@.subrange(i as int, j as int)),
    ensures
        literal_value_ok(r->Literal_0.value, r->Literal_0.text@),
        r->Literal_0.value == value,
        entry_ok(r),
        r is Literal,
        entry_span(r) == (Span { start: i, end: j }),
        entry_text(r) == chars@.subrange(i as int, j as int),
{
    Entry::Literal(Literal { value, text: text_of(chars, i, j), span: Span::new(i, j) })
}

#[verifier::rlimit(50)]
#[verifier::spinoff_prover]
/// Reads one literal, identifier or whitespace run at `i`, none of which holds a group.
fn lex_simple(chars: &Vec<char>, i: usize) -> (r: (Entry, usize))
    requires
        i < chars@.len(),
        !is_open(chars@[i as int]),
    ensures
        i < r.1 <= chars@.len(),
        !(r.0 is End),
        entry_ok(r.0) ==> entry_text(r.0) == chars@.subrange(i as int, r.1 as int),
        r.0 is Punct ==> punct_entry_ok(r.0, chars@),
        entry_extent(r.0) == (Span { start: i, end: r.1 }),
        entry_tight(r.0),
        entry_kind_ok(r.0, chars@),
        r.0 is Literal ==> literal_value_ok(r.0->Literal_0.value, r.0->Literal_0.text@),
{
    proof {
        reveal(entry_kind_ok);
    }
    let n = chars.len();
    let c = chars[i];
    if is_space_exec(c) {
        let j = scan_spaces(chars, i);
        let e = Entry::WhiteSpace { text: text_of(chars, i, j), span: Span::new(i, j) };
        assert(entry_text(e) == chars@.subrange(i as int, j as int));
        assert(entry_kind_ok(e, chars@));
        (e, j)
    } else if is_ident_start_exec(c) {
        let j = scan_ident(chars, i);
        let e = Entry::Ident(Ident { string: text_of(chars, i, j), span: Span::new(i, j) });
        assert(entry_text(e) == chars@.subrange(i as int, j as int));
        assert(entry_kind_ok(e, chars@));
        (e, j)
    } else if is_digit_exec(c) {
        let j = scan_digits(chars, i);
        if j < n - 1 && chars[j] == '.' && is_digit_exec(chars[j + 1]) {
            let k = scan_digits(chars, j + 1);
            let digits = text_of(chars, i, k);
            (literal(chars, LiteralValue::Float(digits), i, k), k)
        } else {
            match int_value(chars, i, j) {
                Some(v) => (literal(chars, LiteralValue::Int(v), i, j), j),
                None => (
                    Entry::Error(
                        ErrorKind::Custom {
                            message: "Integer literal is too large".to_string(),
                            span: Span::new(i, j),
                        },
                    ),
                    j,
                ),
            }
        }
    } else if c == '"' {
        let mut j: usize = i + 1;
        while j < n && chars[j] != '"'
            invariant
                i < j <= n,
                n == chars@.len(),
            decreases n - j,
        {
            if chars[j] == '\\' && j + 1 < n {
                j = j + 2;
            } else {
                j = j + 1;
            }
        }
        if j < n {
            let value = LiteralValue::String(text_of(chars, i + 1, j));
            assert(chars@.subrange(i as int, j + 1) =~= seq!['"'] + chars@.subrange(i + 1, j as int) + seq!['"']);
            (literal(chars, value, i, j + 1), j + 1)
        } else {
            (Entry::Error(ErrorKind::UnterminatedString(Span::new(i, n))), n)
        }
    } else if c == '\'' {
        let mut j: usize = i + 1;
        while j < n && chars[j] != '\''
            invariant
                i < j <= n,
                n == chars@.len(),
            decreases n - j,
        {
            j = j + 1;
        }
        if j == n {
            (Entry::Error(ErrorKind::UnterminatedChar(Span::new(i, n))), n)
        } else if j == i + 2 {
            assert(chars@.subrange(i as int, j + 1) =~= seq!['\'', chars@[i + 1], '\'']);
            (literal(chars, LiteralValue::Char(chars[i + 1]), i, j + 1), j + 1)
        } else {
            (Entry::Error(ErrorKind::LongChar(Span::new(i, j + 1))), j + 1)
        }
    } else {
        match PunctKind::from_char(c) {
            Some(kind) => {
                proof {
                    lemma_punct_char_of(c);
                    assert(seq![c] =~= chars@.subrange(i as int, i + 1));
                }
                let spacing = spacing_at(chars, i);
                let e = Entry::Punct(SingleCharPunct { kind, spacing, span: Span::new(i, i + 1) });
                assert(entry_text(e) == chars@.subrange(i as int, i + 1));
                assert(punct_entry_ok(e, chars@));
                assert(entry_kind_ok(e, chars@));
                (e, i + 1)
            },
            None => (Entry::Error(ErrorKind::UnknownCharacter(Span::new(i, i + 1))), i + 1),
        }
    }
}


fn delimiter_of(c: char) -> (r: Delimiter)
    requires
        is_open(c),
    ensures
        open_char(r) == c,
{
    if c == '(' {
        Delimiter::Parenthesis
    } else if c == '{' {
        Delimiter::Brace
    } else {
        Delimiter::Bracket
    }
}

proof fn lemma_tiles_push(s: Seq<Entry>, from: int, e: Entry)
    requires
        tiles(s, from),
        s.len() == 0 ==> entry_extent(e).start == from,
        s.len() > 0 ==> entry_extent(e).start == entry_extent(s[s.len() - 1]).end,
        entry_extent(e).start <= entry_extent(e).end,
        e is End ==> entry_extent(e).start == entry_extent(e).end,
    ensures
        tiles(s.push(e), from),
        entries_tight(s.push(e)) == (entries_tight(s) && entry_tight(e)),
{
    let t = s.push(e);
    assert(t.subrange(0, s.len() as int) =~= s);
    assert forall|k: int| 0 <= k < t.len() implies {
        &&& entry_extent(#[trigger] t[k]).start == if k == 0 {
            from
        } else {
            entry_extent(t[k - 1]).end as int
        }
        &&& entry_extent(t[k]).start <= entry_extent(t[k]).end
        &&& t[k] is End ==> entry_extent(t[k]).start == entry_extent(t[k]).end
    } by {
        if k < s.len() {
            assert(t[k] == s[k]);
            if k > 0 {
                assert(t[k - 1] == s[k - 1]);
            }
        }
    }
}

/// Reads the group that opens at `i`, or reports it unclosed.
#[verifier::rlimit(100)]
#[verifier::spinoff_prover]
fn lex_group(chars: &Vec<char>, i: usize) -> (r: (Entry, usize))
    requires
        i < chars@.len(),
        is_open(chars@[i as int]),
    ensures
        i < r.1 <= chars@.len(),
        !(r.0 is End),
        !(r.0 is Punct),
        !(r.0 is Literal),
        entry_ok(r.0) ==> entry_text(r.0) == chars@.subrange(i as int, r.1 as int),
        entry_extent(r.0) == (Span { start: i, end: r.1 }),
        entry_tight(r.0),
        entry_kind_ok(r.0, chars@),
    decreases chars@.len() - i, 0nat,
{
    let n = chars.len();
    let c = chars[i];
    let delimiter = delimiter_of(c);
    let (inner, k, closed) = lex_until(chars, i + 1, Some(delimiter.close()));
    let ghost inner_view = inner@;
    assert(tiles(inner_view, i + 1));
    assert(entries_tight(inner_view));
    if closed {
        let e = Entry::Group {
            delimiter,
            open: Span::new(i, i + 1),
            close: Span::new(k, k + 1),
            inner: TokenStream { tokens: inner },
        };
        proof {
            assert(chars@.subrange(i as int, k + 1) =~= seq![c] + chars@.subrange(
                i + 1,
                k as int,
            ) + seq![chars@[k as int]]);
            assert(entry_tight(e));
            assert(entry_kind_ok(e, chars@)) by {
                reveal(entry_kind_ok);
            }
        }
        (e, k + 1)
    } else {
        let e = Entry::Error(ErrorKind::UnterminatedGroup { start: Span::new(i, i + 1), span: Span::new(n, n) });
        assert(entry_kind_ok(e, chars@)) by {
            reveal(entry_kind_ok);
        }
        (e, n)
    }
}

/// Tokenizes from `pos` up to the character `close`, or to the end of the
/// input where `close` is `None` or never comes. Returns the entries, the
/// offset where it stopped, and whether it stopped at `close`.
fn lex_until(chars: &Vec<char>, pos: usize, close: Option<char>) -> (r: (Vec<Entry>, usize, bool))
    requires
        pos <= chars@.len(),
    ensures
        pos <= r.1 <= chars@.len(),
        r.2 ==> r.1 < chars@.len() && close == Some(chars@[r.1 as int]),
        !r.2 ==> r.1 == chars@.len(),
        entries_wf(r.0@),
        entries_ok(r.0@) ==> entries_text(r.0@) == chars@.subrange(pos as int, r.1 as int),
        puncts_ok(r.0@, chars@),
        literals_ok(r.0@),
        tiles(r.0@, pos as int),
        entries_tight(r.0@),
        kinds_ok(r.0@, chars@),
        entry_extent(r.0@[r.0@.len() - 1]) == (Span { start: r.1, end: r.1 }),
    decreases chars@.len() - pos, 1nat,
{
    let n = chars.len();
    let mut entries: Vec<Entry> = Vec::new();
    let mut i: usize = pos;
    while i < n
        invariant
            n == chars@.len(),
            pos <= i <= n,
            forall|k: int| 0 <= k < entries@.len() ==> !(#[trigger] entries@[k] is End),
            entries_ok(entries@) ==> entries_text(entries@) == chars@.subrange(pos as int, i as int),
            puncts_ok(entries@, chars@),
            literals_ok(entries@),
            tiles(entries@, pos as int),
            entries_tight(entries@),
            kinds_ok(entries@, chars@),
            entries@.len() == 0 ==> i == pos,
            entries@.len() > 0 ==> entry_extent(entries@[entries@.len() - 1]).end == i,
        decreases n - i,
    {
        let c = chars[i];
        if close == Some(c) {
            let ghost before = entries@;
            let end = Entry::End(Span::new(i, i));
            let ghost end_ghost = end;
            entries.push(end);
            proof {
                lemma_entries_push(before, end_ghost);
                lemma_tiles_push(before, pos as int, end_ghost);
            }
            return (entries, i, true);
        }
        let (e, j) = if is_open_exec(c) {
            lex_group(chars, i)
        } else {
            lex_simple(chars, i)
        };
        let ghost before = entries@;
        let ghost e_ghost = e;
        entries.push(e);
        proof {
            lemma_entries_push(before, e_ghost);
            lemma_split(chars@, pos as int, i as int, j as int);
            lemma_tiles_push(before, pos as int, e_ghost);
        }
        i = j;
    }
    let ghost before = entries@;
    let end = Entry::End(Span::new(n, n));
    let ghost end_ghost = end;
    entries.push(end);
    proof {
        lemma_entries_push(before, end_ghost);
        lemma_tiles_push(before, pos as int, end_ghost);
    }
    (entries, n, false)
}

/// Tokenizes a whole text. Every character belongs to exactly one entry, so
/// where no entry is an error the entries spell out the text again.
#[verifier::rlimit(100)]
#[verifier::spinoff_prover]
pub fn tokenize_chars(chars: &Vec<char>) -> (r: TokenStream)
    ensures
        entries_wf(r.tokens@),
        literals_ok(r.tokens@),
        tiles(r.tokens@, 0),
        entries_tight(r.tokens@),
        kinds_ok(r.tokens@, chars@),
        entry_extent(r.tokens@[r.tokens@.len() - 1]) == (Span { start: chars@.len() as usize, end: chars@.len() as usize }),
        puncts_ok(r.tokens@, chars@),
        entries_ok(r.tokens@) ==> entries_text(r.tokens@) == chars@,
{
    let (tokens, _, _) = lex_until(chars, 0, None);
    proof {
        assert(chars@.subrange(0, chars@.len() as int) =~= chars@);
    }
    TokenStream { tokens }
}

/// Tokenizes the contents of a source file.
#[verifier::rlimit(100)]
#[verifier::spinoff_prover]
pub fn tokenize(source: &SourceFile) -> (r: TokenStream)
    ensures
        entries_wf(r.tokens@),
        literals_ok(r.tokens@),
        tiles(r.tokens@, 0),
        entries_tight(r.tokens@),
        kinds_ok(r.tokens@, source.contents@),
        entry_extent(r.tokens@[r.tokens@.len() - 1]) == (Span { start: source.contents@.len() as usize, end: source.contents@.len() as usize }),
        puncts_ok(r.tokens@, source.contents@),
        entries_ok(r.tokens@) ==> entries_text(r.tokens@) == source.contents@,
{
    let chars = chars_of(source.contents.as_str());
    tokenize_chars(&chars)
}

} // verus!
