use flexi_parse::driver::conclude;
use flexi_parse::parse_recovering;
use flexi_parse::punctuated::list_step;
use flexi_parse::punctuated::ListStep;
use flexi_parse::recovery::accumulate;
use flexi_parse::parse_string;
use flexi_parse::tokenize;
use flexi_parse::CompositeKind;
use flexi_parse::Delimiter;
use flexi_parse::Entry;
use flexi_parse::Error;
use flexi_parse::ErrorKind;
use flexi_parse::Ident;
use flexi_parse::LitInt;
use flexi_parse::LiteralValue;
use flexi_parse::Parse;
use flexi_parse::ParseStream;
use flexi_parse::Punct;
use flexi_parse::Punctuated;
use flexi_parse::PunctKind;
use flexi_parse::Report;
use flexi_parse::SourceFile;
use flexi_parse::Space2;
use flexi_parse::Space4;
use flexi_parse::Span;
use flexi_parse::TokenStream;

use std::rc::Rc;

fn source(text: &str) -> Rc<SourceFile> {
    Rc::new(SourceFile::new("test".to_string(), text.to_string()))
}

fn lex(src: &Rc<SourceFile>) -> TokenStream {
    tokenize(src)
}

fn expected_of(e: &Error) -> Vec<String> {
    match &e.errors[0].kind {
        ErrorKind::UnexpectedToken { expected, .. } => expected.clone(),
        other => panic!("unexpected error {:?}", other),
    }
}

#[test]
fn composite_parses_when_adjacent() {
    let src = source("<=");
    let stream = lex(&src);
    let mut input = ParseStream::new(&stream, Rc::clone(&src));
    assert_eq!(input.parse_composite(CompositeKind::LessEqual).unwrap(), Span::new(0, 2));
    assert!(input.is_empty());
}

#[test]
fn composite_fails_when_separated_but_parts_parse() {
    let src = source("< =");
    let stream = lex(&src);
    let mut input = ParseStream::new(&stream, Rc::clone(&src));
    let err = input.parse_composite(CompositeKind::LessEqual).unwrap_err();
    assert_eq!(expected_of(&err), vec!["<=".to_string()]);
    assert_eq!(input.position(), 0);
    assert!(input.parse_punct(PunctKind::LAngle).is_ok());
    assert!(input.parse_punct(PunctKind::Equal).is_ok());
    assert!(input.is_empty());
}

#[test]
fn three_part_composite() {
    let src = source("<<= <<");
    let stream = lex(&src);
    let mut input = ParseStream::new(&stream, Rc::clone(&src));
    assert_eq!(input.parse_composite(CompositeKind::LAngleLAngleEqual).unwrap(), Span::new(0, 3));
    assert_eq!(CompositeKind::LAngleLAngleEqual.display(), "<<=");
    let _ = input.next();
    assert!(!input.peek_composite(CompositeKind::LAngleLAngleEqual));
    assert!(input.peek_composite(CompositeKind::LAngleLAngle));
}

#[test]
fn failed_try_parse_rolls_back() {
    let src = source("x = 1");
    let stream = lex(&src);
    let mut input = ParseStream::new(&stream, Rc::clone(&src));
    assert!(input.try_parse::<LitInt>().is_err());
    assert_eq!(input.position(), 0);
    assert!(input.pending_errors().is_empty());
    let ident: Ident = input.parse().unwrap();
    assert_eq!(ident.string, "x");
    assert_eq!(input.position(), 1);
}

#[test]
fn optional_token_is_absent_without_moving() {
    let src = source("x");
    let stream = lex(&src);
    let mut input = ParseStream::new(&stream, Rc::clone(&src));
    let lit: Option<LitInt> = input.parse().unwrap();
    assert!(lit.is_none());
    assert_eq!(input.position(), 0);
    let ident: Option<Ident> = input.parse().unwrap();
    assert_eq!(ident.unwrap().string, "x");
}

#[test]
fn peek_does_not_consume() {
    let src = source("7");
    let stream = lex(&src);
    let input = ParseStream::new(&stream, Rc::clone(&src));
    assert!(input.peek::<LitInt>());
    assert!(!input.peek::<Ident>());
    assert_eq!(input.position(), 0);
}

#[test]
fn next_at_end_is_end_of_file() {
    let src = source("a");
    let stream = lex(&src);
    let mut input = ParseStream::new(&stream, Rc::clone(&src));
    assert!(input.next().is_ok());
    let err = input.next().unwrap_err();
    assert!(matches!(err.errors[0].kind, ErrorKind::EndOfFile(s) if s == Span::new(1, 1)));
    assert!(input.get(-1).is_ok());
    assert!(input.get(-2).is_err());
}

#[test]
fn separated_trailing_accepts_both_forms() {
    for text in ["1,2,3", "1,2,3,"] {
        let src = source(text);
        let stream = lex(&src);
        let mut input = ParseStream::new(&stream, Rc::clone(&src));
        let items: Vec<LitInt> = Punctuated::parse_separated_trailing(&mut input, PunctKind::Comma).unwrap();
        let values: Vec<i64> = items.iter().map(|i| i.value).collect();
        assert_eq!(values, vec![1, 2, 3]);
        assert!(input.is_empty());
    }
}

#[test]
fn separated_rejects_trailing_separator() {
    let src = source("1,2,3,");
    let stream = lex(&src);
    let mut input = ParseStream::new(&stream, Rc::clone(&src));
    let r: Result<Vec<LitInt>, Error> = Punctuated::parse_separated(&mut input, PunctKind::Comma);
    assert!(r.is_err());
    assert_eq!(input.position(), 0);
}

#[test]
fn separated_empty_input_is_empty_list() {
    let src = source("");
    let stream = lex(&src);
    let mut input = ParseStream::new(&stream, Rc::clone(&src));
    let items: Vec<LitInt> = Punctuated::parse_separated(&mut input, PunctKind::Comma).unwrap();
    assert!(items.is_empty());
}

#[test]
fn lookahead_names_every_candidate() {
    let src = source("x");
    let stream = lex(&src);
    let input = ParseStream::new(&stream, Rc::clone(&src));
    let mut look = input.lookahead();
    assert!(!look.peek_punct(PunctKind::Plus));
    assert!(!look.peek_composite(CompositeKind::FatArrow));
    let err = look.error();
    assert_eq!(expected_of(&err), vec!["+".to_string(), "=>".to_string()]);
    assert!(matches!(err.errors[0].kind, ErrorKind::UnexpectedToken { span, .. } if span == Span::new(0, 1)));
}

#[test]
fn group_gives_its_interior() {
    let src = source("[a]");
    let stream = lex(&src);
    let mut input = ParseStream::new(&stream, Rc::clone(&src));
    assert!(input.parse_group(Delimiter::Parenthesis).is_err());
    let group = input.parse_group(Delimiter::Bracket).unwrap();
    assert_eq!(group.open_span(), Span::new(0, 1));
    assert_eq!(group.close_span(), Span::new(2, 3));
    let mut inner = ParseStream::new(group.into_token_stream(), Rc::clone(&src));
    let ident: Ident = inner.parse().unwrap();
    assert_eq!(ident.string, "a");
    assert!(inner.is_empty());
}

#[test]
fn unterminated_group_surfaces_when_parsed() {
    let src = source("(1");
    let stream = lex(&src);
    let mut input = ParseStream::new(&stream, Rc::clone(&src));
    let err = input.parse_group(Delimiter::Parenthesis).unwrap_err();
    assert!(matches!(err.errors[0].kind, ErrorKind::UnterminatedGroup { start, .. } if start == Span::new(0, 1)));
}

#[test]
fn spaces_parse_exact_runs() {
    let src = source("  a    b");
    let stream = lex(&src);
    let mut input = ParseStream::new(&stream, Rc::clone(&src));
    assert!(input.parse::<Space4>().is_err());
    assert_eq!(input.parse::<Space2>().unwrap().0, Span::new(0, 2));
    let _ = input.next();
    assert_eq!(input.parse::<Space4>().unwrap().0, Span::new(3, 7));
    assert_eq!(Space2::display(), "  ");
    assert_eq!(Space4::display(), "    ");
}

#[test]
fn parse_string_requires_whole_input() {
    let ok: Result<Ident, Error> = parse_string("abc".to_string());
    assert_eq!(ok.unwrap().string, "abc");
    let rest: Result<Ident, Error> = parse_string("abc def".to_string());
    assert!(rest.is_err());
    let lexical: Result<Ident, Error> = parse_string("é".to_string());
    assert!(matches!(lexical.unwrap_err().errors[0].kind, ErrorKind::UnknownCharacter(_)));
}

#[test]
fn error_with_concatenates() {
    let src = source("");
    let a = Error::new(Rc::clone(&src), ErrorKind::EndOfFile(Span::new(0, 0)));
    let b = Error::new(Rc::clone(&src), ErrorKind::LongChar(Span::new(1, 2)));
    let both = a.with(b);
    assert_eq!(both.len(), 2);
    assert!(matches!(both.errors[1].kind, ErrorKind::LongChar(_)));
    assert!(!both.is_silent());
    assert!(Error::silent(src).is_silent());
}

#[test]
fn reports_skip_silent_errors_and_render() {
    let src = source("(x");
    let e = Error::silent(Rc::clone(&src))
        .with(Error::new(Rc::clone(&src), ErrorKind::UnterminatedGroup { start: Span::new(0, 1), span: Span::new(2, 2) }))
        .with(Error::new(Rc::clone(&src), ErrorKind::UnexpectedToken { expected: vec!["+".to_string(), "x".to_string()], span: Span::new(1, 2) }));
    let reports = e.reports();
    assert_eq!(reports.len(), 2);
    assert_eq!(reports[0].message, "Unmatched '('");
    assert_eq!(reports[0].render(), "error[E4]: Unmatched '('\n --> test:2..2\n");
    assert_eq!(reports[1].render(), "error[E8]: Unexpected token\n --> test:1..2: expected one of: +, x\n");
    let dup = Error::new(Rc::clone(&src), ErrorKind::UnexpectedToken { expected: vec!["x".to_string(), "+".to_string(), "x".to_string()], span: Span::new(0, 1) });
    assert_eq!(dup.reports()[0].render(), "error[E8]: Unexpected token\n --> test:0..1: expected one of: +, x\n");
    let mut out: Vec<u8> = Vec::new();
    reports[1].write(&mut out).unwrap();
    assert_eq!(String::from_utf8(out).unwrap(), reports[1].render());
}

#[test]
fn report_messages_are_fixed() {
    let src = source("abc");
    let cases = vec![
        (ErrorKind::UnknownCharacter(Span::new(0, 1)), "Unrecognised character"),
        (ErrorKind::UnterminatedChar(Span::new(0, 1)), "Expect \"'\" after character literal"),
        (ErrorKind::LongChar(Span::new(0, 1)), "Character literals must be exactly one character long"),
        (ErrorKind::UnterminatedString(Span::new(0, 1)), "Expect '\"' at end of string literal"),
        (ErrorKind::EndOfFile(Span::new(3, 3)), "Unexpected end of file while parsing"),
        (ErrorKind::Custom { message: "Invalid assignment target".to_string(), span: Span::new(0, 1) }, "Invalid assignment target"),
    ];
    for (kind, message) in cases {
        let e = Error::new(Rc::clone(&src), kind);
        let report = Report::from_error(&e.errors[0]).unwrap();
        assert_eq!(report.message, message);
    }
}

/// `name = number ;`
struct Assign {
    name: String,
    value: i64,
}

impl Parse for Assign {
    fn parse(input: &mut ParseStream) -> Result<Self, Error> {
        let name: Ident = input.parse()?;
        input.parse_punct(PunctKind::Equal)?;
        let value: LitInt = input.parse()?;
        input.parse_punct(PunctKind::SemiColon)?;
        Ok(Assign { name: name.string, value: value.value })
    }
}

fn after_semicolon(s: &ParseStream) -> bool {
    matches!(s.get(-1), Ok(Entry::Punct(p)) if p.kind == PunctKind::SemiColon)
}

#[test]
fn recovery_reports_each_bad_statement_once() {
    let src = source("a = 1; b = ; c = 3;");
    let mut stream = lex(&src);
    stream.remove_whitespace();
    let mut input = ParseStream::new(&stream, Rc::clone(&src));
    let r: Result<Vec<Assign>, Error> = parse_recovering(&mut input, after_semicolon);
    let err = r.err().unwrap();
    assert_eq!(err.errors.len(), 1);
    assert!(matches!(err.errors[0].kind, ErrorKind::UnexpectedToken { .. }));
    assert!(input.is_empty());
}

#[test]
fn recovery_returns_units_when_all_parse() {
    let src = source("a = 1; c = 3;");
    let mut stream = lex(&src);
    stream.remove_whitespace();
    let mut input = ParseStream::new(&stream, Rc::clone(&src));
    let units: Vec<Assign> = parse_recovering(&mut input, after_semicolon).unwrap();
    let names: Vec<(String, i64)> = units.into_iter().map(|a| (a.name, a.value)).collect();
    assert_eq!(names, vec![("a".to_string(), 1), ("c".to_string(), 3)]);
}

struct Checked(i64);

impl Parse for Checked {
    fn parse(input: &mut ParseStream) -> Result<Self, Error> {
        let lit: LitInt = input.parse()?;
        if lit.value == 0 {
            let e = input.error(ErrorKind::Custom { message: "zero".to_string(), span: lit.span });
            input.add_error(e);
        }
        Ok(Checked(lit.value))
    }
}

#[test]
fn recorded_errors_fail_the_whole_parse() {
    let ok: Result<Checked, Error> = parse_string("5".to_string());
    assert_eq!(ok.unwrap().0, 5);
    let bad: Result<Checked, Error> = parse_string("0".to_string());
    let err = bad.err().unwrap();
    assert_eq!(err.errors.len(), 1);
    assert!(matches!(&err.errors[0].kind, ErrorKind::Custom { message, .. } if message == "zero"));
}

fn primary(input: &mut ParseStream, src: &Rc<SourceFile>) -> Result<f64, Error> {
    if input.peek_punct(PunctKind::Dash) {
        input.parse_punct(PunctKind::Dash)?;
        return Ok(-primary(input, src)?);
    }
    if let Ok(group) = input.parse_group(Delimiter::Parenthesis) {
        let mut inner = ParseStream::new(group.into_token_stream(), Rc::clone(src));
        let value = expr(&mut inner, src)?;
        inner.skip_whitespace();
        assert!(inner.is_empty());
        return Ok(value);
    }
    let lit = input.parse_literal()?;
    match &lit.value {
        LiteralValue::Int(v) => Ok(*v as f64),
        LiteralValue::Float(text) => Ok(text.parse().unwrap()),
        _ => panic!("not a number"),
    }
}

fn term(input: &mut ParseStream, src: &Rc<SourceFile>) -> Result<f64, Error> {
    let mut value = primary(input, src)?;
    loop {
        if input.parse_punct(PunctKind::Asterisk).is_ok() {
            value *= primary(input, src)?;
        } else if input.parse_punct(PunctKind::Slash).is_ok() {
            value /= primary(input, src)?;
        } else if input.parse_punct(PunctKind::Percent).is_ok() {
            value %= primary(input, src)?;
        } else {
            return Ok(value);
        }
    }
}

fn expr(input: &mut ParseStream, src: &Rc<SourceFile>) -> Result<f64, Error> {
    let mut value = term(input, src)?;
    loop {
        if input.parse_punct(PunctKind::Plus).is_ok() {
            value += term(input, src)?;
        } else if input.parse_punct(PunctKind::Dash).is_ok() {
            value -= term(input, src)?;
        } else {
            return Ok(value);
        }
    }
}

#[test]
fn arithmetic_end_to_end() {
    let src = source("(((4 - 1) + 5) / (2.5 + -0.5) * 2) % 3");
    let stream = lex(&src);
    let mut input = ParseStream::new(&stream, Rc::clone(&src));
    let value = expr(&mut input, &src).unwrap();
    assert!(input.is_empty());
    assert_eq!(value, 2.0);
}

#[test]
fn joint_pair_needs_adjacency() {
    let src = source("-> - >");
    let stream = lex(&src);
    let mut input = ParseStream::new(&stream, Rc::clone(&src));
    let (a, b) = input.parse_joint(PunctKind::Dash, PunctKind::RAngle).unwrap();
    assert_eq!((a.span, b.span), (Span::new(0, 1), Span::new(1, 2)));
    let _ = input.next();
    let err = input.parse_joint(PunctKind::Dash, PunctKind::RAngle).unwrap_err();
    assert_eq!(expected_of(&err), vec!["->".to_string()]);
    assert_eq!(input.position(), 3);
}

#[test]
fn lookahead_probes_identifiers_and_literals() {
    let src = source("+");
    let stream = lex(&src);
    let input = ParseStream::new(&stream, Rc::clone(&src));
    let mut look = input.lookahead();
    assert!(!look.peek_ident());
    assert!(!look.peek_literal());
    assert!(look.peek_punct(PunctKind::Plus));
    assert_eq!(expected_of(&look.error()), vec!["identifier".to_string(), "literal".to_string()]);
}

#[test]
fn synchronise_skips_to_boundary() {
    let src = source("a b ; c");
    let mut stream = lex(&src);
    stream.remove_whitespace();
    let mut input = ParseStream::new(&stream, Rc::clone(&src));
    input.synchronise(after_semicolon);
    assert_eq!(input.position(), 3);
    input.synchronise(after_semicolon);
    assert!(input.is_empty());
    input.synchronise(after_semicolon);
    assert!(input.is_empty());
}

#[test]
fn punctuation_equality_ignores_span() {
    let src = source("+ +");
    let stream = lex(&src);
    match (&stream.tokens[0], &stream.tokens[2]) {
        (Entry::Punct(a), Entry::Punct(b)) => {
            assert!(a == b);
            assert_ne!(a.span, b.span);
        }
        _ => panic!("expected punctuation"),
    }
}

#[test]
fn group_copy_without_whitespace_keeps_nesting() {
    let src = source("( a [ b ] )");
    let stream = lex(&src);
    let mut input = ParseStream::new(&stream, Rc::clone(&src));
    let group = input.parse_group(Delimiter::Parenthesis).unwrap();
    let inner = group.remove_whitespace();
    assert_eq!(inner.tokens.len(), 3);
    assert!(matches!(&inner.tokens[0], Entry::Ident(i) if i.string == "a"));
    match &inner.tokens[1] {
        Entry::Group { delimiter, inner, .. } => {
            assert_eq!(*delimiter, Delimiter::Bracket);
            assert_eq!(inner.display(), Some(" b ".to_string()));
        }
        other => panic!("expected a group, found {:?}", other),
    }
    assert_eq!(stream.display(), Some("( a [ b ] )".to_string()));
}

#[test]
fn accumulate_concatenates_in_order() {
    let src = source("");
    let first = Error::new(Rc::clone(&src), ErrorKind::EndOfFile(Span::new(0, 0)));
    let recorded = Error::new(Rc::clone(&src), ErrorKind::LongChar(Span::new(1, 2))).errors;
    let failure = Error::new(Rc::clone(&src), ErrorKind::UnknownCharacter(Span::new(3, 4)));
    let all = accumulate(Some(first), recorded, Some(failure)).unwrap();
    assert_eq!(all.errors.len(), 3);
    assert!(matches!(all.errors[0].kind, ErrorKind::EndOfFile(_)));
    assert!(matches!(all.errors[1].kind, ErrorKind::LongChar(_)));
    assert!(matches!(all.errors[2].kind, ErrorKind::UnknownCharacter(_)));
    assert!(accumulate(None, Vec::new(), None).is_none());
}

#[test]
fn list_step_decisions() {
    assert_eq!(list_step(false, true, true), ListStep::Stop);
    assert_eq!(list_step(true, true, true), ListStep::StopAfterSeparator);
    assert_eq!(list_step(true, true, false), ListStep::TrailingError);
    assert_eq!(list_step(true, false, true), ListStep::Continue);
}

#[test]
fn conclude_reports_leftovers() {
    let src = source("a b");
    let mut stream = lex(&src);
    stream.remove_whitespace();
    let mut input = ParseStream::new(&stream, Rc::clone(&src));
    let r: Result<Ident, Error> = input.parse();
    let err = conclude(r, input).err().unwrap();
    assert_eq!(err.errors.len(), 1);
    assert!(matches!(&err.errors[0].kind, ErrorKind::UnexpectedToken { expected, span } if expected.is_empty() && *span == Span::new(2, 3)));
}

#[test]
fn report_labels_follow_the_kind() {
    let src = source("x");
    let eof = Error::new(Rc::clone(&src), ErrorKind::EndOfFile(Span::new(1, 1)));
    assert!(Report::from_error(&eof.errors[0]).unwrap().labels.is_empty());
    let unknown = Error::new(Rc::clone(&src), ErrorKind::UnknownCharacter(Span::new(0, 1)));
    let report = Report::from_error(&unknown.errors[0]).unwrap();
    assert_eq!(report.labels.len(), 1);
    assert_eq!(report.labels[0].span, Span::new(0, 1));
    assert_eq!(report.labels[0].text, "");
    assert!(Report::from_error(&Error::silent(src).errors[0]).is_none());
}

#[test]
fn eprint_of_silent_error_is_ok() {
    let src = source("");
    assert!(Error::silent(src).eprint().is_ok());
}

#[test]
fn tokens_are_read_across_whitespace() {
    let src = source("  x  < =  ");
    let stream = lex(&src);
    let mut input = ParseStream::new(&stream, Rc::clone(&src));
    let ident: Ident = input.parse().unwrap();
    assert_eq!(ident.span, Span::new(2, 3));
    assert!(input.parse_composite(CompositeKind::LessEqual).is_err());
    assert_eq!(input.parse_punct(PunctKind::LAngle).unwrap().span, Span::new(5, 6));
    assert_eq!(input.parse_punct(PunctKind::Equal).unwrap().span, Span::new(7, 8));
    let spaced: Result<Ident, Error> = parse_string(" abc ".to_string());
    assert_eq!(spaced.unwrap().string, "abc");
}

#[test]
fn separated_lists_read_across_spaces() {
    let src = source(" 1 , 2 , ");
    let stream = lex(&src);
    let mut input = ParseStream::new(&stream, Rc::clone(&src));
    let items: Vec<LitInt> = Punctuated::parse_separated_trailing(&mut input, PunctKind::Comma).unwrap();
    assert_eq!(items.iter().map(|i| i.value).collect::<Vec<i64>>(), vec![1, 2]);
    let mut again = ParseStream::new(&stream, Rc::clone(&src));
    let r: Result<Vec<LitInt>, Error> = Punctuated::parse_separated(&mut again, PunctKind::Comma);
    assert!(matches!(r.err().unwrap().errors[0].kind, ErrorKind::EndOfFile(_)));
    assert_eq!(list_step(true, true, false), ListStep::TrailingError);
}
