use flexi_parse::tokenize;
use flexi_parse::Delimiter;
use flexi_parse::Entry;
use flexi_parse::ErrorKind;
use flexi_parse::LiteralValue;
use flexi_parse::SourceFile;
use flexi_parse::Spacing;
use flexi_parse::Span;
use flexi_parse::TokenStream;

fn lex(text: &str) -> TokenStream {
    tokenize(&SourceFile::new("test".to_string(), text.to_string()))
}

fn only_error(stream: &TokenStream) -> &ErrorKind {
    let errors: Vec<&ErrorKind> = stream
        .tokens
        .iter()
        .filter_map(|e| match e {
            Entry::Error(k) => Some(k),
            _ => None,
        })
        .collect();
    assert_eq!(errors.len(), 1);
    errors[0]
}

#[test]
fn display_reproduces_source() {
    let text = "let x = (1 + 2.5) * [\"s\\\"q\", 'c'];\n\t{ a_b::=c }";
    let stream = lex(text);
    assert_eq!(stream.display(), Some(text.to_string()));
}

#[test]
fn display_reproduces_non_ascii_punctuation() {
    let text = "£5 ¬x";
    assert_eq!(lex(text).display(), Some(text.to_string()));
}

#[test]
fn display_fails_on_error_entries() {
    assert_eq!(lex("a é b").display(), None);
}

#[test]
fn stream_ends_with_one_end() {
    let stream = lex("a (b) c");
    assert!(matches!(stream.tokens.last(), Some(Entry::End(_))));
    let ends = stream.tokens.iter().filter(|e| matches!(e, Entry::End(_))).count();
    assert_eq!(ends, 1);
    match &stream.tokens[2] {
        Entry::Group { delimiter, open, close, inner } => {
            assert_eq!(*delimiter, Delimiter::Parenthesis);
            assert_eq!(*open, Span::new(2, 3));
            assert_eq!(*close, Span::new(4, 5));
            assert!(matches!(inner.tokens.last(), Some(Entry::End(_))));
            assert_eq!(inner.tokens.len(), 2);
        }
        other => panic!("expected a group, found {:?}", other),
    }
}

#[test]
fn empty_source_is_just_end() {
    let stream = lex("");
    assert_eq!(stream.tokens.len(), 1);
    assert!(matches!(stream.tokens[0], Entry::End(_)));
    assert_eq!(stream.display(), Some(String::new()));
}

#[test]
fn spacing_marks_adjacent_punctuation() {
    let stream = lex("<= < =");
    let spacings: Vec<Spacing> = stream
        .tokens
        .iter()
        .filter_map(|e| match e {
            Entry::Punct(p) => Some(p.spacing),
            _ => None,
        })
        .collect();
    assert_eq!(spacings, vec![Spacing::Joint, Spacing::Alone, Spacing::Alone, Spacing::Alone]);
}

#[test]
fn unterminated_group_points_at_open_and_end() {
    let stream = lex("(1 + 2");
    match only_error(&stream) {
        ErrorKind::UnterminatedGroup { start, span } => {
            assert_eq!(*start, Span::new(0, 1));
            assert_eq!(*span, Span::new(6, 6));
        }
        other => panic!("unexpected error {:?}", other),
    }
}

#[test]
fn literals_carry_values() {
    let stream = lex("42 2.5 \"hi\" 'c'");
    let values: Vec<&LiteralValue> = stream
        .tokens
        .iter()
        .filter_map(|e| match e {
            Entry::Literal(l) => Some(&l.value),
            _ => None,
        })
        .collect();
    assert_eq!(values.len(), 4);
    assert!(matches!(values[0], LiteralValue::Int(42)));
    assert!(matches!(values[1], LiteralValue::Float(s) if s == "2.5"));
    assert!(matches!(values[2], LiteralValue::String(s) if s == "hi"));
    assert!(matches!(values[3], LiteralValue::Char('c')));
}

#[test]
fn largest_integer_literal_fits() {
    let stream = lex("9223372036854775807");
    assert!(matches!(&stream.tokens[0], Entry::Literal(l) if matches!(l.value, LiteralValue::Int(i64::MAX))));
}

#[test]
fn too_large_integer_is_an_error() {
    let stream = lex("9223372036854775808");
    assert!(matches!(only_error(&stream), ErrorKind::Custom { span, .. } if *span == Span::new(0, 19)));
}

#[test]
fn unknown_character_is_an_error() {
    let stream = lex("a é");
    assert!(matches!(only_error(&stream), ErrorKind::UnknownCharacter(s) if *s == Span::new(2, 3)));
}

#[test]
fn unterminated_string_is_an_error() {
    let stream = lex("x \"abc");
    assert!(matches!(only_error(&stream), ErrorKind::UnterminatedString(s) if *s == Span::new(2, 6)));
}

#[test]
fn unterminated_char_is_an_error() {
    let stream = lex("'a");
    assert!(matches!(only_error(&stream), ErrorKind::UnterminatedChar(s) if *s == Span::new(0, 2)));
}

#[test]
fn long_char_is_an_error() {
    let stream = lex("'ab' ''");
    let errors: Vec<&ErrorKind> = stream
        .tokens
        .iter()
        .filter_map(|e| match e {
            Entry::Error(k) => Some(k),
            _ => None,
        })
        .collect();
    assert_eq!(errors.len(), 2);
    assert!(matches!(errors[0], ErrorKind::LongChar(s) if *s == Span::new(0, 4)));
    assert!(matches!(errors[1], ErrorKind::LongChar(s) if *s == Span::new(5, 7)));
}

#[test]
fn remove_whitespace_keeps_order() {
    let mut stream = lex("a  + b");
    stream.remove_whitespace();
    assert_eq!(stream.tokens.len(), 4);
    assert!(matches!(&stream.tokens[0], Entry::Ident(i) if i.string == "a"));
    assert!(matches!(&stream.tokens[2], Entry::Ident(i) if i.string == "b"));
}

#[test]
fn display_restores_gaps_from_spans() {
    let mut stream = lex("a  + (b )");
    stream.remove_whitespace();
    assert_eq!(stream.display(), Some("a  + (b )".to_string()));
}

#[test]
fn spacing_is_joint_before_any_punctuation() {
    let stream = lex("+(a) -_ *");
    let spacings: Vec<Spacing> = stream
        .tokens
        .iter()
        .filter_map(|e| match e {
            Entry::Punct(p) => Some(p.spacing),
            _ => None,
        })
        .collect();
    assert_eq!(spacings, vec![Spacing::Joint, Spacing::Joint, Spacing::Alone]);
}
