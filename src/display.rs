use vstd::prelude::*;

use crate::entry::entries_ok;
use crate::entry::entries_text;
use crate::entry::lemma_entries_push;
use crate::entry::entry_ok;
use crate::entry::close_char;
use crate::entry::entry_span;
use crate::entry::open_char;
use crate::entry::entry_text;
use crate::entry::Entry;
use crate::entry::Ident;
use crate::entry::Literal;
use crate::entry::LiteralValue;
use crate::entry::TokenStream;
use crate::lexer::chars_of;
use crate::lexer::entries_tight;
use crate::lexer::entry_extent;
use crate::lexer::entry_tight;
use crate::lexer::tiles;
use crate::lexer::string_from_chars;

verus! {

broadcast use vstd::std_specs::vec::axiom_vec_decreases_to_view;

/// `n` spaces.
pub open spec fn spaces(n: int) -> Seq<char> {
    Seq::new(if n > 0 { n as nat } else { 0 }, |i: int| ' ')
}

/// The spaces written before an entry starting at `start`, where the entry
/// before it ended at `last` (none before the first entry).
pub open spec fn gap(last: Option<usize>, start: usize) -> Seq<char> {
    match last {
        Some(l) => spaces(start - l),
        None => Seq::empty(),
    }
}

/// Where the last entry of `s` other than `End` ends; `first` where there
/// is none.
pub open spec fn last_end(s: Seq<Entry>, first: Option<usize>) -> Option<usize>
    decreases s.len(),
{
    if s.len() == 0 {
        first
    } else if s[s.len() - 1] is End {
        last_end(s.subrange(0, s.len() - 1), first)
    } else {
        Some(entry_span(s[s.len() - 1]).end)
    }
}

/// How an entry is shown: its text, with a group's interior shown with gaps.
pub open spec fn shown_entry(e: Entry) -> Seq<char>
    decreases e,
{
    match e {
        Entry::Group { delimiter, open, close, inner } => seq![open_char(delimiter)] + shown(
            inner.tokens@,
            Some(open.end),
        ) + gap(last_end(inner.tokens@, Some(open.end)), close.start) + seq![close_char(delimiter)],
        _ => entry_text(e),
    }
}

/// How a sequence of entries is shown: each entry preceded by one space for
/// each offset between the end of the entry before it and its own start.
/// `End` shows nothing.
pub open spec fn shown(s: Seq<Entry>, first: Option<usize>) -> Seq<char>
    decreases s,
{
    if s.len() == 0 {
        Seq::empty()
    } else {
        let t = s.subrange(0, s.len() - 1);
        let e = s[s.len() - 1];
        if e is End {
            shown(t, first)
        } else {
            shown(t, first) + gap(last_end(t, first), entry_span(e).start) + shown_entry(e)
        }
    }
}

fn push_gap(out: &mut Vec<char>, last: Option<usize>, start: usize)
    ensures
        final(out)@ == old(out)@ + gap(last, start),
{
    if let Some(l) = last {
        if start > l {
            let mut k: usize = 0;
            let ghost base = out@;
            while k < start - l
                invariant
                    l < start,
                    k <= start - l,
                    out@ == base + spaces(k as int),
                decreases start - l - k,
            {
                out.push(' ');
                k = k + 1;
                assert(out@ =~= base + spaces(k as int));
            }
        } else {
            assert(gap(last, start) =~= Seq::<char>::empty());
        }
    }
}

/// Appends how `tokens` are shown to `out`, or reports an error entry.
/// Also gives where the last entry shown ended.
fn write_entries(tokens: &Vec<Entry>, out: &mut Vec<char>, first: Option<usize>) -> (r: (bool, Option<usize>))
    ensures
        r.0 == entries_ok(tokens@),
        r.0 ==> final(out)@ == old(out)@ + shown(tokens@, first) && r.1 == last_end(tokens@, first),
    decreases tokens@,
{
    let mut i: usize = 0;
    let ghost start = out@;
    let mut last = first;
    while i < tokens.len()
        invariant
            i <= tokens@.len(),
            entries_ok(tokens@.subrange(0, i as int)),
            out@ == start + shown(tokens@.subrange(0, i as int), first),
            last == last_end(tokens@.subrange(0, i as int), first),
        decreases tokens@.len() - i,
    {
        let ghost prefix = tokens@.subrange(0, i as int);
        let ghost before = out@;
        let ghost next = tokens@.subrange(0, i + 1);
        proof {
            assert(next.subrange(0, i as int) =~= prefix);
            assert(next[i as int] == tokens@[i as int]);
        }
        let is_end = matches!(tokens[i], Entry::End(_));
        if !is_end {
            push_gap(out, last, tokens[i].span().start);
        }
        let ghost mid = out@;
        let ok = match &tokens[i] {
            Entry::Ident(ident) => {
                let s = chars_of(ident.string.as_str());
                append_chars(out, &s);
                true
            },
            Entry::Punct(p) => {
                out.push(p.kind.to_char());
                true
            },
            Entry::Literal(l) => {
                let s = chars_of(l.text.as_str());
                append_chars(out, &s);
                true
            },
            Entry::WhiteSpace { text, .. } => {
                let s = chars_of(text.as_str());
                append_chars(out, &s);
                true
            },
            Entry::Group { delimiter, open, close, inner } => {
                out.push(delimiter.open());
                proof {
                    assert(decreases_to!(tokens@ => tokens@[i as int]));
                }
                let (inner_ok, inner_last) = write_entries(&inner.tokens, out, Some(open.end));
                if inner_ok {
                    push_gap(out, inner_last, close.start);
                    out.push(delimiter.close());
                    assert(out@ =~= mid + shown_entry(tokens@[i as int]));
                }
                inner_ok
            },
            Entry::Error(_) => false,
            Entry::End(_) => true,
        };
        proof {
            lemma_entries_push(prefix, tokens@[i as int]);
            assert(tokens@.subrange(0, i + 1) =~= prefix.push(tokens@[i as int]));
        }
        if !ok {
            proof {
                lemma_not_ok_extends(tokens@, i as int + 1);
            }
            return (false, last);
        }
        if !is_end {
            last = Some(tokens[i].span().end);
        }
        proof {
            if !is_end {
                assert(out@ =~= mid + shown_entry(tokens@[i as int]));
                assert(mid == before + gap(last_end(prefix, first), entry_span(tokens@[i as int]).start));
            }
            assert(out@ =~= start + shown(next, first));
        }
        i = i + 1;
    }
    proof {
        assert(tokens@.subrange(0, i as int) =~= tokens@);
    }
    (true, last)
}

/// Once a prefix holds an error, so does every longer one.
proof fn lemma_not_ok_extends(s: Seq<Entry>, p: int)
    requires
        0 <= p <= s.len(),
        !entries_ok(s.subrange(0, p)),
    ensures
        !entries_ok(s),
    decreases s.len() - p,
{
    if p < s.len() {
        let t = s.subrange(0, p + 1);
        assert(t.subrange(0, p) =~= s.subrange(0, p));
        lemma_not_ok_extends(s, p + 1);
    } else {
        assert(s.subrange(0, p) =~= s);
    }
}

fn append_chars(out: &mut Vec<char>, s: &Vec<char>)
    ensures
        final(out)@ == old(out)@ + s@,
{
    let mut k: usize = 0;
    let ghost start = out@;
    while k < s.len()
        invariant
            k <= s@.len(),
            out@ == start + s@.subrange(0, k as int),
        decreases s@.len() - k,
    {
        out.push(s[k]);
        k = k + 1;
        assert(out@ =~= start + s@.subrange(0, k as int));
    }
    assert(s@.subrange(0, k as int) =~= s@);
}

impl TokenStream {
    /// The text the stream shows: each entry's text, preceded by a space for
    /// each offset of gap between the entry before it and itself. `None`
    /// where the stream holds an entry that the tokenizer could not read.
    pub fn display(&self) -> (r: Option<String>)
        ensures
            r is Some <==> entries_ok(self.tokens@),
            r is Some ==> r->0@ == shown(self.tokens@, None),
    {
        let mut out: Vec<char> = Vec::new();
        if write_entries(&self.tokens, &mut out, None).0 {
            assert(out@ =~= shown(self.tokens@, None));
            Some(string_from_chars(&out))
        } else {
            None
        }
    }
}


/// An entry that is not a whitespace run.
pub open spec fn not_space(e: Entry) -> bool {
    !(e is WhiteSpace)
}

impl TokenStream {
    /// Drops the whitespace runs at the top level of the stream; the rest
    /// keep their order. Punctuation keeps its spacing, so punctuation that
    /// stood apart still does not join.
    pub fn remove_whitespace(&mut self)
        ensures
            final(self).tokens@ == old(self).tokens@.filter(|e: Entry| not_space(e)),
    {
        let mut rest: Vec<Entry> = Vec::new();
        std::mem::swap(&mut rest, &mut self.tokens);
        let ghost all = rest@;
        let ghost mut done: Seq<Entry> = Seq::empty();
        assert(self.tokens@ =~= done.filter(|e: Entry| not_space(e)));
        while rest.len() > 0
            invariant
                all == done + rest@,
                self.tokens@ == done.filter(|e: Entry| not_space(e)),
            decreases rest@.len(),
        {
            let e = rest.remove(0);
            proof {
                Seq::filter_distributes_over_add(done, seq![e], |e: Entry| not_space(e));
                reveal_with_fuel(Seq::filter, 2);
                assert(done.push(e) =~= done + seq![e]);
                assert(seq![e].filter(|e: Entry| not_space(e)) =~= if not_space(e) {
                    seq![e]
                } else {
                    Seq::empty()
                }) by {
                    assert(seq![e].drop_last() =~= Seq::<Entry>::empty());
                }
                done = done.push(e);
            }
            if !matches!(e, Entry::WhiteSpace { .. }) {
                self.tokens.push(e);
            }
            assert(self.tokens@ =~= done.filter(|e: Entry| not_space(e)));
        }
        assert(all =~= done);
    }
}


proof fn lemma_last_end(s: Seq<Entry>, from: int, first: Option<usize>)
    requires
        tiles(s, from),
        entries_ok(s),
        s.len() > 0,
        first is None || first == Some(from as usize),
        0 <= from,
    ensures
        last_end(s, first) is None || last_end(s, first) == Some(
            entry_extent(s[s.len() - 1]).end,
        ),
        first is Some ==> last_end(s, first) == Some(entry_extent(s[s.len() - 1]).end),
    decreases s.len(),
{
    let t = s.subrange(0, s.len() - 1);
    let e = s[s.len() - 1];
    assert(tiles(t, from)) by {
        assert forall|k: int| 0 <= k < t.len() implies #[trigger] t[k] == s[k] by {}
    }
    assert(entries_ok(t) && entry_ok(e));
    if e is End {
        if t.len() > 0 {
            lemma_last_end(t, from, first);
            assert(s[t.len() - 1] == t[t.len() - 1]);
        }
    }
    lemma_ok_extent(e);
}

proof fn lemma_ok_extent(e: Entry)
    requires
        entry_ok(e),
    ensures
        entry_extent(e) == entry_span(e),
{
}

/// An error-free stream whose entries were read one after another, at every
/// depth, shows exactly its text: every gap is empty.
#[verifier::rlimit(100)]
#[verifier::spinoff_prover]
proof fn lemma_shown_text(s: Seq<Entry>, from: int, first: Option<usize>)
    requires
        tiles(s, from),
        entries_ok(s),
        entries_tight(s),
        first is None || first == Some(from as usize),
        0 <= from,
    ensures
        shown(s, first) == entries_text(s),
    decreases s,
{
    if s.len() > 0 {
        let t = s.subrange(0, s.len() - 1);
        let e = s[s.len() - 1];
        assert(tiles(t, from)) by {
            assert forall|k: int| 0 <= k < t.len() implies #[trigger] t[k] == s[k] by {}
        }
        assert(entries_ok(t) && entry_ok(e));
        assert(entries_tight(t) && entry_tight(e));
        lemma_shown_text(t, from, first);
        lemma_ok_extent(e);
        if !(e is End) {
            if t.len() > 0 {
                lemma_last_end(t, from, first);
                assert(s[t.len() - 1] == t[t.len() - 1]);
            }
            if t.len() == 0 {
                assert(entry_extent(s[0]).start == from);
            }
            assert(gap(last_end(t, first), entry_span(e).start) =~= Seq::<char>::empty());
            lemma_shown_entry(e);
            assert(shown(s, first) == shown(t, first) + gap(last_end(t, first), entry_span(e).start)
                + shown_entry(e));
        } else {
            assert(shown(s, first) == shown(t, first));
        }
        assert(entries_text(s) == entries_text(t) + entry_text(e));
    }
}

#[verifier::rlimit(100)]
#[verifier::spinoff_prover]
proof fn lemma_shown_entry(e: Entry)
    requires
        entry_ok(e),
        entry_tight(e),
    ensures
        shown_entry(e) == entry_text(e),
    decreases e,
{
    if let Entry::Group { open, close, inner, .. } = e {
        assert(decreases_to!(e => inner.tokens@));
        lemma_shown_text(inner.tokens@, open.end as int, Some(open.end));
        lemma_last_end(inner.tokens@, open.end as int, Some(open.end));
        assert(gap(last_end(inner.tokens@, Some(open.end)), close.start) =~= Seq::<char>::empty());
    }
}

/// Where the tokenizer read `text` without error, displaying its stream
/// gives `text` back: the premises are what `tokenize` and `display` ensure.
pub proof fn lemma_display_round_trip(text: Seq<char>, tokens: Seq<Entry>, display: Option<Seq<char>>)
    requires
        entries_ok(tokens) ==> entries_text(tokens) == text,
        tiles(tokens, 0),
        entries_tight(tokens),
        display is Some <==> entries_ok(tokens),
        display is Some ==> display->0 == shown(tokens, None),
        entries_ok(tokens),
    ensures
        display == Some(text),
{
    lemma_shown_text(tokens, 0, None);
}

/// `b` stands for what `a` does: the same kind of entry over the same span,
/// with the same text, and an error exactly where `a` has one.
pub open spec fn same_entry(a: Entry, b: Entry) -> bool {
    &&& entry_text(a) == entry_text(b)
    &&& entry_ok(a) == entry_ok(b)
    &&& entry_span(a) == entry_span(b)
    &&& (a is End <==> b is End)
    &&& (a is WhiteSpace <==> b is WhiteSpace)
    &&& (a is Punct <==> b is Punct)
    &&& (a is Punct ==> a->Punct_0 == b->Punct_0)
    &&& (a is Ident <==> b is Ident)
    &&& (a is Literal <==> b is Literal)
    &&& (a is Group <==> b is Group)
    &&& (a is Error <==> b is Error)
}

fn copy_value(v: &LiteralValue) -> (r: LiteralValue)
    ensures
        r == *v,
{
    match v {
        LiteralValue::Int(x) => LiteralValue::Int(*x),
        LiteralValue::Float(x) => LiteralValue::Float(x.clone()),
        LiteralValue::String(x) => LiteralValue::String(x.clone()),
        LiteralValue::Char(x) => LiteralValue::Char(*x),
    }
}

fn copy_entry(e: &Entry) -> (r: Entry)
    ensures
        same_entry(*e, r),
    decreases *e,
{
    match e {
        Entry::Ident(i) => Entry::Ident(Ident { string: i.string.clone(), span: i.span }),
        Entry::Punct(p) => Entry::Punct(*p),
        Entry::Literal(l) => Entry::Literal(
            Literal { value: copy_value(&l.value), text: l.text.clone(), span: l.span },
        ),
        Entry::WhiteSpace { text, span } => Entry::WhiteSpace { text: text.clone(), span: *span },
        Entry::Group { delimiter, open, close, inner } => {
            let tokens = copy_entries(&inner.tokens);
            Entry::Group {
                delimiter: *delimiter,
                open: *open,
                close: *close,
                inner: TokenStream { tokens },
            }
        },
        Entry::Error(k) => Entry::Error(k.copy()),
        Entry::End(span) => Entry::End(*span),
    }
}

fn copy_entries(v: &Vec<Entry>) -> (r: Vec<Entry>)
    ensures
        r@.len() == v@.len(),
        forall|k: int| 0 <= k < v@.len() ==> same_entry(#[trigger] v@[k], r@[k]),
        entries_text(r@) == entries_text(v@),
        entries_ok(r@) == entries_ok(v@),
    decreases v@,
{
    let mut r: Vec<Entry> = Vec::new();
    let mut k: usize = 0;
    while k < v.len()
        invariant
            k <= v@.len(),
            r@.len() == k,
            forall|m: int| 0 <= m < k ==> same_entry(#[trigger] v@[m], r@[m]),
            entries_text(r@) == entries_text(v@.subrange(0, k as int)),
            entries_ok(r@) == entries_ok(v@.subrange(0, k as int)),
        decreases v@.len() - k,
    {
        proof {
            assert(decreases_to!(v@ => v@[k as int]));
        }
        let e = copy_entry(&v[k]);
        let ghost before = r@;
        let ghost eg = e;
        r.push(e);
        proof {
            lemma_entries_push(before, eg);
            lemma_entries_push(v@.subrange(0, k as int), v@[k as int]);
            assert(v@.subrange(0, k + 1) =~= v@.subrange(0, k as int).push(v@[k as int]));
        }
        k = k + 1;
    }
    assert(v@.subrange(0, k as int) =~= v@);
    r
}

impl TokenStream {
    /// A copy of the stream without its top-level whitespace runs; every
    /// other entry stands for what it did, in the same order.
    pub fn without_whitespace(&self) -> (r: TokenStream)
        ensures
            r.tokens@.len() == self.tokens@.filter(|e: Entry| not_space(e)).len(),
            forall|k: int|
                0 <= k < r.tokens@.len() ==> same_entry(
                    self.tokens@.filter(|e: Entry| not_space(e))[k],
                    #[trigger] r.tokens@[k],
                ),
    {
        let mut out: Vec<Entry> = Vec::new();
        let mut k: usize = 0;
        let ghost f = |e: Entry| not_space(e);
        while k < self.tokens.len()
            invariant
                k <= self.tokens@.len(),
                f == (|e: Entry| not_space(e)),
                out@.len() == self.tokens@.subrange(0, k as int).filter(f).len(),
                forall|m: int|
                    0 <= m < out@.len() ==> same_entry(
                        self.tokens@.subrange(0, k as int).filter(f)[m],
                        #[trigger] out@[m],
                    ),
            decreases self.tokens@.len() - k,
        {
            let ghost prev = self.tokens@.subrange(0, k as int);
            let ghost x = self.tokens@[k as int];
            proof {
                assert(self.tokens@.subrange(0, k + 1) =~= prev + seq![x]);
                Seq::filter_distributes_over_add(prev, seq![x], f);
                reveal_with_fuel(Seq::filter, 2);
                assert(seq![x].drop_last() =~= Seq::<Entry>::empty());
            }
            if !matches!(self.tokens[k], Entry::WhiteSpace { .. }) {
                let e = copy_entry(&self.tokens[k]);
                out.push(e);
                proof {
                    assert(seq![x].filter(f) =~= seq![x]);
                    assert(self.tokens@.subrange(0, k + 1).filter(f) =~= prev.filter(f).push(x));
                }
            } else {
                proof {
                    assert(seq![x].filter(f) =~= Seq::<Entry>::empty());
                    assert(self.tokens@.subrange(0, k + 1).filter(f) =~= prev.filter(f));
                }
            }
            k = k + 1;
        }
        assert(self.tokens@.subrange(0, k as int) =~= self.tokens@);
        TokenStream { tokens: out }
    }
}

} // verus!
