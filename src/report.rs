use vstd::prelude::*;

use crate::entry::error_span;
use crate::error::Error;
use crate::error::ErrorKind;
use crate::error::SingleError;
use crate::lexer::chars_of;
use crate::lexer::string_from_chars;
use crate::span::SourceFile;
use crate::span::Span;
use std::rc::Rc;

verus! {

/// A span with the text to show beside it.
#[derive(Debug)]
pub struct Label {
    pub span: Span,
    pub text: String,
}

/// A diagnostic ready to be shown: one error, its code, its message and its
/// labelled spans in the source it came from.
#[derive(Debug)]
pub struct Report {
    pub code: u32,
    pub message: String,
    pub labels: Vec<Label>,
    pub source: Rc<SourceFile>,
}

pub open spec fn vec_texts(v: Seq<Vec<char>>) -> Seq<Seq<char>> {
    v.map_values(|x: Vec<char>| x@)
}

pub open spec fn string_texts(v: Seq<String>) -> Seq<Seq<char>> {
    v.map_values(|x: String| x@)
}

/// `a` comes strictly before `b` in dictionary order of characters.
pub open spec fn lex_lt(a: Seq<char>, b: Seq<char>) -> bool
    decreases a.len(),
{
    if b.len() == 0 {
        false
    } else if a.len() == 0 {
        true
    } else if a[0] != b[0] {
        a[0] < b[0]
    } else {
        lex_lt(a.drop_first(), b.drop_first())
    }
}

pub open spec fn lex_le(a: Seq<char>, b: Seq<char>) -> bool {
    lex_lt(a, b) || a == b
}

/// Each item comes no later than the next in dictionary order.
pub open spec fn is_sorted(s: Seq<Seq<char>>) -> bool {
    forall|i: int, j: int| 0 <= i < j < s.len() ==> lex_le(#[trigger] s[i], #[trigger] s[j])
}

proof fn lemma_lex_total(a: Seq<char>, b: Seq<char>)
    ensures
        lex_lt(a, b) || lex_le(b, a),
    decreases a.len(),
{
    if a.len() > 0 && b.len() > 0 && a[0] == b[0] {
        lemma_lex_total(a.drop_first(), b.drop_first());
        if a.drop_first() == b.drop_first() {
            assert(a =~= seq![a[0]] + a.drop_first());
            assert(b =~= seq![b[0]] + b.drop_first());
        }
    } else if a.len() == 0 && b.len() == 0 {
        assert(a =~= b);
    }
}

proof fn lemma_lex_trans(a: Seq<char>, b: Seq<char>, c: Seq<char>)
    requires
        lex_lt(a, b),
        lex_le(b, c),
    ensures
        lex_lt(a, c),
    decreases a.len(),
{
    if b != c && a.len() > 0 && b.len() > 0 && c.len() > 0 && a[0] == b[0] && b[0] == c[0] {
        lemma_lex_trans(a.drop_first(), b.drop_first(), c.drop_first());
    }
}

proof fn lemma_lex_le_trans(a: Seq<char>, b: Seq<char>, c: Seq<char>)
    requires
        lex_le(a, b),
        lex_le(b, c),
    ensures
        lex_le(a, c),
{
    if a != b {
        lemma_lex_trans(a, b, c);
    }
}

fn lex_lt_exec(a: &Vec<char>, b: &Vec<char>) -> (r: bool)
    ensures
        r == lex_lt(a@, b@),
{
    let mut k: usize = 0;
    assert(a@.subrange(0, a@.len() as int) =~= a@);
    assert(b@.subrange(0, b@.len() as int) =~= b@);
    while k < a.len() && k < b.len() && a[k] == b[k]
        invariant
            k <= a@.len(),
            k <= b@.len(),
            a@.subrange(0, k as int) == b@.subrange(0, k as int),
            lex_lt(a@, b@) == lex_lt(a@.subrange(k as int, a@.len() as int), b@.subrange(k as int, b@.len() as int)),
        decreases a@.len() - k,
    {
        let ghost sa = a@.subrange(k as int, a@.len() as int);
        let ghost sb = b@.subrange(k as int, b@.len() as int);
        assert(sa.drop_first() =~= a@.subrange(k + 1, a@.len() as int));
        assert(sb.drop_first() =~= b@.subrange(k + 1, b@.len() as int));
        assert(a@.subrange(0, k + 1) =~= a@.subrange(0, k as int).push(a@[k as int]));
        assert(b@.subrange(0, k + 1) =~= b@.subrange(0, k as int).push(b@[k as int]));
        k = k + 1;
    }
    if k < b.len() && k < a.len() {
        a[k] < b[k]
    } else {
        k < b.len()
    }
}

/// The texts of `expected` in dictionary order.
fn sorted_texts(expected: &Vec<String>) -> (r: Vec<Vec<char>>)
    ensures
        is_sorted(vec_texts(r@)),
        vec_texts(r@).to_multiset() == string_texts(expected@).to_multiset(),
{
    let mut out: Vec<Vec<char>> = Vec::new();
    let mut k: usize = 0;
    let ghost all = string_texts(expected@);
    assert(vec_texts(out@) =~= all.subrange(0, 0));
    while k < expected.len()
        invariant
            k <= expected@.len(),
            all == string_texts(expected@),
            is_sorted(vec_texts(out@)),
            vec_texts(out@).to_multiset() == all.subrange(0, k as int).to_multiset(),
        decreases expected@.len() - k,
    {
        let item = chars_of(expected[k].as_str());
        let ghost view = vec_texts(out@);
        let mut p: usize = 0;
        while p < out.len() && !lex_lt_exec(&item, &out[p])
            invariant
                p <= out@.len(),
                view == vec_texts(out@),
                forall|i: int| 0 <= i < p ==> lex_le(#[trigger] view[i], item@),
            decreases out@.len() - p,
        {
            proof {
                lemma_lex_total(item@, out@[p as int]@);
            }
            p = p + 1;
        }
        proof {
            assert forall|i: int| p <= i < view.len() implies lex_lt(item@, #[trigger] view[i]) by {
                assert(lex_le(view[p as int], view[i]));
                lemma_lex_trans(item@, view[p as int], view[i]);
            }
        }
        let ghost item_view = item@;
        out.insert(p, item);
        proof {
            let nv = vec_texts(out@);
            assert(nv =~= view.insert(p as int, item_view));
            assert forall|i: int, j: int| 0 <= i < j < nv.len() implies lex_le(#[trigger] nv[i], #[trigger] nv[j]) by {
                if j < p {
                } else if j == p {
                    assert(nv[i] == view[i]);
                } else if i < p {
                    assert(nv[i] == view[i]);
                    assert(nv[j] == view[j - 1]);
                    lemma_lex_le_trans(view[i], item_view, view[j - 1]);
                } else if i == p {
                    assert(nv[j] == view[j - 1]);
                } else {
                    assert(nv[i] == view[i - 1]);
                    assert(nv[j] == view[j - 1]);
                }
            }
            vstd::seq_lib::to_multiset_insert(view, p as int, item_view);
            assert(item_view == all[k as int]);
            assert(all.subrange(0, k + 1) =~= all.subrange(0, k as int).push(all[k as int]));
            vstd::seq_lib::to_multiset_build(all.subrange(0, k as int), all[k as int]);
        }
        k = k + 1;
    }
    assert(all.subrange(0, k as int) =~= all);
    out
}

/// The text of an unexpected-token label: the expected tokens, comma-separated.
pub open spec fn expected_list(expected: Seq<Seq<char>>) -> Seq<char>
    decreases expected.len(),
{
    if expected.len() == 0 {
        Seq::empty()
    } else if expected.len() == 1 {
        expected[0]
    } else {
        expected_list(expected.subrange(0, expected.len() - 1)) + seq![',', ' '] + expected[expected.len() - 1]
    }
}

/// The message of a report on an error of kind `kind`, for every kind whose
/// message does not depend on the source text.
pub open spec fn fixed_message(kind: ErrorKind) -> Seq<char> {
    match kind {
        ErrorKind::UnknownCharacter(_) => "Unrecognised character"@,
        ErrorKind::UnterminatedChar(_) => "Expect \"'\" after character literal"@,
        ErrorKind::LongChar(_) => "Character literals must be exactly one character long"@,
        ErrorKind::UnterminatedString(_) => "Expect '\"' at end of string literal"@,
        ErrorKind::UnexpectedToken { .. } => "Unexpected token"@,
        ErrorKind::EndOfFile(_) => "Unexpected end of file while parsing"@,
        _ => Seq::empty(),
    }
}

fn push_str(out: &mut Vec<char>, s: &str)
    ensures
        final(out)@ == old(out)@ + s@,
{
    let v = chars_of(s);
    let mut k: usize = 0;
    let ghost start = out@;
    while k < v.len()
        invariant
            k <= v@.len(),
            out@ == start + v@.subrange(0, k as int),
        decreases v@.len() - k,
    {
        out.push(v[k]);
        k = k + 1;
        assert(out@ =~= start + v@.subrange(0, k as int));
    }
    assert(v@.subrange(0, k as int) =~= v@);
}

/// The decimal digits of `n`.
pub open spec fn decimal(n: nat) -> Seq<char>
    decreases n,
{
    if n < 10 {
        seq![(n + '0' as nat) as char]
    } else {
        decimal(n / 10) + seq![((n % 10) + '0' as nat) as char]
    }
}

fn digit_char(d: usize) -> (r: char)
    requires
        d < 10,
    ensures
        r == ((d + '0' as nat) as char),
{
    match d {
        0 => '0',
        1 => '1',
        2 => '2',
        3 => '3',
        4 => '4',
        5 => '5',
        6 => '6',
        7 => '7',
        8 => '8',
        _ => '9',
    }
}

fn push_decimal(out: &mut Vec<char>, n: usize)
    ensures
        final(out)@ == old(out)@ + decimal(n as nat),
    decreases n,
{
    if n >= 10 {
        push_decimal(out, n / 10);
    }
    out.push(digit_char(n % 10));
    assert(out@ =~= old(out)@ + decimal(n as nat));
}

/// Each item comes strictly before the next: sorted, with no repeats.
pub open spec fn is_strictly_sorted(s: Seq<Seq<char>>) -> bool {
    forall|i: int, j: int| 0 <= i < j < s.len() ==> lex_lt(#[trigger] s[i], #[trigger] s[j])
}

proof fn lemma_lex_lt_irreflexive(a: Seq<char>)
    ensures
        !lex_lt(a, a),
    decreases a.len(),
{
    if a.len() > 0 {
        lemma_lex_lt_irreflexive(a.drop_first());
    }
}

/// The distinct texts of `expected`, in dictionary order.
fn distinct_sorted(expected: &Vec<String>) -> (r: Vec<Vec<char>>)
    ensures
        is_strictly_sorted(vec_texts(r@)),
        forall|t: Seq<char>|
            #[trigger] vec_texts(r@).contains(t) <==> string_texts(expected@).contains(t),
{
    let sorted = sorted_texts(expected);
    let ghost sv = vec_texts(sorted@);
    let ghost all = string_texts(expected@);
    proof {
        assert forall|t: Seq<char>| #[trigger] sv.contains(t) <==> all.contains(t) by {
            vstd::seq_lib::to_multiset_contains(sv, t);
            vstd::seq_lib::to_multiset_contains(all, t);
        }
    }
    let mut out: Vec<Vec<char>> = Vec::new();
    let mut k: usize = 0;
    while k < sorted.len()
        invariant
            k <= sorted@.len(),
            sv == vec_texts(sorted@),
            is_sorted(sv),
            is_strictly_sorted(vec_texts(out@)),
            forall|t: Seq<char>|
                #[trigger] vec_texts(out@).contains(t) <==> sv.subrange(0, k as int).contains(t),
            k > 0 ==> out@.len() > 0 && out@[out@.len() - 1]@ == sv[k - 1],
            k == 0 ==> out@.len() == 0,
        decreases sorted@.len() - k,
    {
        let ghost ov = vec_texts(out@);
        let ghost prefix = sv.subrange(0, k as int);
        let ghost next = sv.subrange(0, k + 1);
        assert(next =~= prefix.push(sv[k as int]));
        let fresh = if out.len() == 0 {
            true
        } else {
            lex_lt_exec(&out[out.len() - 1], &sorted[k])
        };
        if fresh {
            let item = copy_chars(&sorted[k]);
            out.push(item);
            proof {
                let nv = vec_texts(out@);
                assert(nv =~= ov.push(sv[k as int]));
                assert forall|i: int, j: int| 0 <= i < j < nv.len() implies lex_lt(#[trigger] nv[i], #[trigger] nv[j]) by {
                    if j == nv.len() - 1 && i < j {
                        if i < ov.len() - 1 {
                            assert(lex_lt(ov[i], ov[ov.len() - 1]));
                            lemma_lex_trans(ov[i], ov[ov.len() - 1], sv[k as int]);
                        }
                    }
                }
                assert forall|t: Seq<char>| #[trigger] nv.contains(t) <==> next.contains(t) by {
                    if nv.contains(t) {
                        let i = choose|i: int| 0 <= i < nv.len() && nv[i] == t;
                        if i < ov.len() {
                            assert(ov.contains(t));
                            let m = choose|m: int| 0 <= m < prefix.len() && prefix[m] == t;
                            assert(next[m] == t);
                        } else {
                            assert(next[k as int] == t);
                        }
                    }
                    if next.contains(t) {
                        let m = choose|m: int| 0 <= m < next.len() && next[m] == t;
                        if m < k {
                            assert(prefix[m] == t);
                            assert(prefix.contains(t));
                            assert(ov.contains(t));
                            let i = choose|i: int| 0 <= i < ov.len() && ov[i] == t;
                            assert(nv[i] == t);
                        } else {
                            assert(nv[nv.len() - 1] == t);
                        }
                    }
                }
            }
        } else {
            proof {
                lemma_lex_total(ov[ov.len() - 1], sv[k as int]);
                assert(lex_le(sv[k - 1], sv[k as int]));
                lemma_lex_lt_irreflexive(sv[k as int]);
                assert(sv[k as int] == sv[k - 1]);
                assert forall|t: Seq<char>| #[trigger] ov.contains(t) <==> next.contains(t) by {
                    if next.contains(t) {
                        let m = choose|m: int| 0 <= m < next.len() && next[m] == t;
                        if m < k {
                            assert(prefix[m] == t);
                        } else {
                            assert(prefix[k - 1] == t);
                        }
                        assert(prefix.contains(t));
                    }
                    if ov.contains(t) {
                        assert(prefix.contains(t));
                        let m = choose|m: int| 0 <= m < prefix.len() && prefix[m] == t;
                        assert(next[m] == t);
                    }
                }
            }
        }
        k = k + 1;
    }
    assert(sv.subrange(0, k as int) =~= sv);
    out
}

fn copy_chars(v: &Vec<char>) -> (r: Vec<char>)
    ensures
        r@ == v@,
{
    let mut r: Vec<char> = Vec::new();
    let mut k: usize = 0;
    while k < v.len()
        invariant
            k <= v@.len(),
            r@ == v@.subrange(0, k as int),
        decreases v@.len() - k,
    {
        r.push(v[k]);
        k = k + 1;
        assert(r@ =~= v@.subrange(0, k as int));
    }
    assert(v@.subrange(0, k as int) =~= v@);
    r
}

/// The label of an unexpected-token report: the distinct expected tokens in
/// dictionary order, comma-separated.
fn label_text(expected: &Vec<String>) -> (r: String)
    ensures
        expected_label(string_texts(expected@), r@),
{
    let items = distinct_sorted(expected);
    let mut out: Vec<char> = Vec::new();
    push_str(&mut out, "expected one of: ");
    let ghost head = out@;
    let ghost all = vec_texts(items@);
    let mut k: usize = 0;
    while k < items.len()
        invariant
            k <= items@.len(),
            all == vec_texts(items@),
            out@ == head + expected_list(all.subrange(0, k as int)),
        decreases items@.len() - k,
    {
        let ghost prev = all.subrange(0, k as int);
        let ghost next = all.subrange(0, k + 1);
        assert(next.subrange(0, next.len() - 1) =~= prev);
        if k > 0 {
            push_str(&mut out, ", ");
            proof {
                reveal_strlit(", ");
                assert(", "@ =~= seq![',', ' ']);
            }
        }
        append(&mut out, &items[k]);
        assert(next[k as int] == items@[k as int]@);
        k = k + 1;
        assert(out@ =~= head + expected_list(next));
    }
    assert(all.subrange(0, k as int) =~= all);
    string_from_chars(&out)
}

fn append(out: &mut Vec<char>, v: &Vec<char>)
    ensures
        final(out)@ == old(out)@ + v@,
{
    let mut k: usize = 0;
    let ghost start = out@;
    while k < v.len()
        invariant
            k <= v@.len(),
            out@ == start + v@.subrange(0, k as int),
        decreases v@.len() - k,
    {
        out.push(v[k]);
        k = k + 1;
        assert(out@ =~= start + v@.subrange(0, k as int));
    }
    assert(v@.subrange(0, k as int) =~= v@);
}

/// The message of a report on an unclosed group opening at `start`.
pub open spec fn unmatched_message(contents: Seq<char>, start: Span) -> Seq<char> {
    "Unmatched '"@ + (if start.start < contents.len() {
        seq![contents[start.start as int]]
    } else {
        Seq::empty()
    }) + seq!['\'']
}

/// The label text of an unexpected-token report: the distinct expected
/// texts in dictionary order, comma-separated.
pub open spec fn expected_label(expected: Seq<Seq<char>>, text: Seq<char>) -> bool {
    exists|d: Seq<Seq<char>>|
        {
            &&& is_strictly_sorted(d)
            &&& forall|t: Seq<char>| #[trigger] d.contains(t) <==> expected.contains(t)
            &&& text == "expected one of: "@ + expected_list(d)
        }
}

/// `r` is the report on the non-silent error `e`: its code, its message,
/// and its labels, kind by kind.
pub open spec fn report_of(e: SingleError, r: Report) -> bool {
    &&& r.code == e.kind.code_spec()
    &&& match e.kind {
        ErrorKind::Silent => false,
        ErrorKind::Custom { message, span } => r.message@ == message@ && r.labels@.len() == 1
            && r.labels@[0].span == span && r.labels@[0].text@.len() == 0,
        ErrorKind::UnterminatedGroup { start, span } => r.message@ == unmatched_message(
            e.source.contents@,
            start,
        ) && r.labels@.len() == 1 && r.labels@[0].span == span && r.labels@[0].text@.len() == 0,
        ErrorKind::UnexpectedToken { expected, span } => r.message@ == fixed_message(e.kind)
            && r.labels@.len() == 1 && r.labels@[0].span == span && expected_label(
            string_texts(expected@),
            r.labels@[0].text@,
        ),
        ErrorKind::EndOfFile(_) => r.message@ == fixed_message(e.kind) && r.labels@.len() == 0,
        _ => r.message@ == fixed_message(e.kind) && r.labels@.len() == 1 && r.labels@[0].span
            == error_span(e.kind) && r.labels@[0].text@.len() == 0,
    }
}

fn plain_label(span: Span) -> (r: Vec<Label>)
    ensures
        r@.len() == 1,
        r@[0].span == span,
        r@[0].text@.len() == 0,
{
    vec![Label { span, text: String::new() }]
}

impl Report {
    /// The report on `error`; a silent error gives none.
    pub fn from_error(error: &SingleError) -> (r: Option<Report>)
        ensures
            r is None <==> error.kind is Silent,
            r is Some ==> report_of(*error, r->0),
    {
        let code = error.kind.code();
        let source = Rc::clone(&error.source);
        let (message, labels) = match &error.kind {
            ErrorKind::Silent => {
                return None;
            },
            ErrorKind::Custom { message, span } => (message.clone(), plain_label(*span)),
            ErrorKind::UnknownCharacter(span) => ("Unrecognised character".to_string(), plain_label(*span)),
            ErrorKind::UnterminatedGroup { start, span } => {
                let mut m: Vec<char> = Vec::new();
                push_str(&mut m, "Unmatched '");
                let text = chars_of(error.source.contents.as_str());
                if start.start < text.len() {
                    m.push(text[start.start]);
                }
                m.push('\'');
                assert(m@ =~= unmatched_message(error.source.contents@, *start));
                (string_from_chars(&m), plain_label(*span))
            },
            ErrorKind::UnterminatedChar(span) => ("Expect \"'\" after character literal".to_string(), plain_label(*span)),
            ErrorKind::LongChar(span) => ("Character literals must be exactly one character long".to_string(), plain_label(*span)),
            ErrorKind::UnterminatedString(span) => ("Expect '\"' at end of string literal".to_string(), plain_label(*span)),
            ErrorKind::UnexpectedToken { expected, span } => ("Unexpected token".to_string(), vec![Label { span: *span, text: label_text(expected) }]),
            ErrorKind::EndOfFile(_) => ("Unexpected end of file while parsing".to_string(), Vec::new()),
        };
        Some(Report { code, message, labels, source })
    }
}


/// The line shown for one label of a report on source `id`.
pub open spec fn label_line(id: Seq<char>, l: Label) -> Seq<char> {
    " --> "@ + id + seq![':'] + decimal(l.span.start as nat) + ".."@ + decimal(l.span.end as nat) + (
    if l.text@.len() == 0 {
        Seq::empty()
    } else {
        ": "@ + l.text@
    }) + seq!['\n']
}

/// The lines of the labels `labels`, in order.
pub open spec fn label_lines(id: Seq<char>, labels: Seq<Label>) -> Seq<char>
    decreases labels.len(),
{
    if labels.len() == 0 {
        Seq::empty()
    } else {
        label_lines(id, labels.subrange(0, labels.len() - 1)) + label_line(id, labels[labels.len() - 1])
    }
}

/// The rendered text of a report.
pub open spec fn rendered(r: Report) -> Seq<char> {
    "error[E"@ + decimal(r.code as nat) + "]: "@ + r.message@ + seq!['\n'] + label_lines(
        r.source.id@,
        r.labels@,
    )
}

/// Relies on `std::io::Error`, the error of a failed write; nothing inside it is read.
#[verifier::external_type_specification]
#[verifier::external_body]
pub struct ExIoError(std::io::Error);

/// Relies on `std::io::Stderr`, a handle to the standard error stream.
#[verifier::external_type_specification]
#[verifier::external_body]
pub struct ExStderr(std::io::Stderr);

/// Relies on `std::io::Stdout`, a handle to the standard output stream.
#[verifier::external_type_specification]
#[verifier::external_body]
pub struct ExStdout(std::io::Stdout);

/// Relies on `std::io::Write::write_all`: writes every byte of `text` to `w`,
/// or returns the first error.
#[verifier::external_body]
fn write_all<W: std::io::Write>(mut w: W, text: &str) -> std::io::Result<()> {
    w.write_all(text.as_bytes())
}

/// Relies on `std::io::stderr`: a handle to the process's standard error.
#[verifier::external_body]
fn stderr_handle() -> std::io::Stderr {
    std::io::stderr()
}

/// Relies on `std::io::stdout`: a handle to the process's standard output.
#[verifier::external_body]
fn stdout_handle() -> std::io::Stdout {
    std::io::stdout()
}

impl Report {
    /// The report as text: a header line with the code and the message, then
    /// one line for each label with the source's name and the span.
    pub fn render(&self) -> (r: String)
        ensures
            r@ == rendered(*self),
    {
        let mut out: Vec<char> = Vec::new();
        push_str(&mut out, "error[E");
        push_decimal(&mut out, self.code as usize);
        push_str(&mut out, "]: ");
        push_str(&mut out, self.message.as_str());
        out.push('\n');
        let ghost head = out@;
        let ghost id = self.source.id@;
        let mut k: usize = 0;
        while k < self.labels.len()
            invariant
                k <= self.labels@.len(),
                id == self.source.id@,
                out@ == head + label_lines(id, self.labels@.subrange(0, k as int)),
            decreases self.labels@.len() - k,
        {
            let ghost prev = self.labels@.subrange(0, k as int);
            let ghost next = self.labels@.subrange(0, k + 1);
            assert(next.subrange(0, next.len() - 1) =~= prev);
            let ghost before = out@;
            let label = &self.labels[k];
            push_str(&mut out, " --> ");
            push_str(&mut out, self.source.id.as_str());
            out.push(':');
            push_decimal(&mut out, label.span.start);
            push_str(&mut out, "..");
            push_decimal(&mut out, label.span.end);
            let text = chars_of(label.text.as_str());
            if text.len() > 0 {
                push_str(&mut out, ": ");
                push_str(&mut out, label.text.as_str());
            }
            out.push('\n');
            assert(out@ =~= before + label_line(id, *label));
            k = k + 1;
            assert(out@ =~= head + label_lines(id, next));
        }
        assert(self.labels@.subrange(0, k as int) =~= self.labels@);
        assert(out@ =~= rendered(*self));
        string_from_chars(&out)
    }

    /// Writes the report to `w`.
    pub fn write<W: std::io::Write>(&self, w: W) -> std::io::Result<()> {
        let text = self.render();
        write_all(w, text.as_str())
    }

    /// Writes the report to `w`, which stands for standard output. The text
    /// is the same as `write` gives.
    pub fn write_for_stdout<W: std::io::Write>(&self, w: W) -> std::io::Result<()> {
        self.write(w)
    }

    /// Writes the report to standard error.
    pub fn eprint(&self) -> std::io::Result<()> {
        self.write(stderr_handle())
    }

    /// Writes the report to standard output.
    pub fn print(&self) -> std::io::Result<()> {
        self.write(stdout_handle())
    }
}

/// The errors of `s` that are not silent, in order.
pub open spec fn non_silent(s: Seq<SingleError>) -> Seq<SingleError> {
    s.filter(|e: SingleError| !(e.kind is Silent))
}

impl Error {
    /// One report for each error that is not silent, in order.
    pub fn reports(&self) -> (r: Vec<Report>)
        ensures
            r@.len() == non_silent(self.errors@).len(),
            forall|j: int|
                0 <= j < r@.len() ==> report_of(non_silent(self.errors@)[j], #[trigger] r@[j]),
    {
        let mut reports: Vec<Report> = Vec::new();
        let mut k: usize = 0;
        let ghost f = |e: SingleError| !(e.kind is Silent);
        while k < self.errors.len()
            invariant
                k <= self.errors@.len(),
                f == (|e: SingleError| !(e.kind is Silent)),
                reports@.len() == self.errors@.subrange(0, k as int).filter(f).len(),
                forall|j: int|
                    0 <= j < reports@.len() ==> report_of(
                        self.errors@.subrange(0, k as int).filter(f)[j],
                        #[trigger] reports@[j],
                    ),
            decreases self.errors@.len() - k,
        {
            let ghost prev = self.errors@.subrange(0, k as int);
            let ghost x = self.errors@[k as int];
            proof {
                assert(self.errors@.subrange(0, k + 1) =~= prev + seq![x]);
                Seq::filter_distributes_over_add(prev, seq![x], f);
                reveal_with_fuel(Seq::filter, 2);
                assert(seq![x].drop_last() =~= Seq::<SingleError>::empty());
            }
            match Report::from_error(&self.errors[k]) {
                Some(report) => {
                    reports.push(report);
                    proof {
                        assert(seq![x].filter(f) =~= seq![x]);
                        assert(self.errors@.subrange(0, k + 1).filter(f) =~= prev.filter(f).push(x));
                    }
                },
                None => {
                    proof {
                        assert(seq![x].filter(f) =~= Seq::<SingleError>::empty());
                        assert(self.errors@.subrange(0, k + 1).filter(f) =~= prev.filter(f));
                    }
                },
            }
            k = k + 1;
        }
        assert(self.errors@.subrange(0, k as int) =~= self.errors@);
        reports
    }

    /// Writes every error that is not silent to standard error, in order:
    /// the text of each is `render` of its report in `reports`. Where every
    /// error is silent nothing is written.
    pub fn eprint(&self) -> (r: std::io::Result<()>)
        ensures
            non_silent(self.errors@).len() == 0 ==> r is Ok,
    {
        let reports = self.reports();
        let mut k: usize = 0;
        while k < reports.len()
            invariant
                k <= reports@.len(),
                reports@.len() == non_silent(self.errors@).len(),
            decreases reports@.len() - k,
        {
            match reports[k].eprint() {
                Ok(()) => {},
                Err(e) => {
                    return Err(e);
                },
            }
            k = k + 1;
        }
        Ok(())
    }
}

} // verus!
