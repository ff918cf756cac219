use macro_workshop::seq::{SeqError, SeqMacro, SeqParseError, SeqParseErrorKind};
use macro_workshop::tokens::{GroupDelimiter, PunctSpacing, Tok};

fn ident(text: &str, span: usize) -> Tok {
    Tok::Ident { text: text.to_string(), span }
}

fn lit(text: &str, span: usize) -> Tok {
    Tok::Literal { text: text.to_string(), span }
}

fn punct(ch: char, spacing: PunctSpacing, span: usize) -> Tok {
    Tok::Punct { ch, spacing, span }
}

fn group(delimiter: GroupDelimiter, span: usize, stream: Vec<Tok>) -> Tok {
    Tok::Group { delimiter, span, stream }
}

/// `N in start..end { body }`, with spans 0 to 6 on the header tokens.
fn input(start: &str, end: &str, body: Vec<Tok>) -> Vec<Tok> {
    vec![
        ident("N", 0),
        ident("in", 1),
        lit(start, 2),
        punct('.', PunctSpacing::Joint, 3),
        punct('.', PunctSpacing::Alone, 4),
        lit(end, 5),
        group(GroupDelimiter::Brace, 6, body),
    ]
}

fn parse_error(kind: SeqParseErrorKind, span: Option<usize>) -> SeqError {
    SeqError::Parse(SeqParseError { kind, span })
}

#[test]
fn expands_body_once_per_number() {
    let body = vec![ident("x", 10), ident("N", 11), punct(';', PunctSpacing::Alone, 12)];
    let out = macro_workshop::seq::seq(&input("0", "3", body)).unwrap();
    let expected = vec![
        ident("x", 10),
        lit("0", 11),
        punct(';', PunctSpacing::Alone, 12),
        ident("x", 10),
        lit("1", 11),
        punct(';', PunctSpacing::Alone, 12),
        ident("x", 10),
        lit("2", 11),
        punct(';', PunctSpacing::Alone, 12),
    ];
    assert_eq!(out, expected);
}

#[test]
fn replaces_inside_groups_and_keeps_delimiter_and_span() {
    let body = vec![group(
        GroupDelimiter::Parenthesis,
        20,
        vec![group(GroupDelimiter::Bracket, 21, vec![ident("N", 22)]), ident("M", 23)],
    )];
    let out = macro_workshop::seq::seq(&input("4", "5", body)).unwrap();
    let expected = vec![group(
        GroupDelimiter::Parenthesis,
        20,
        vec![group(GroupDelimiter::Bracket, 21, vec![lit("4", 22)]), ident("M", 23)],
    )];
    assert_eq!(out, expected);
}

#[test]
fn numbers_of_several_digits() {
    let out = macro_workshop::seq::seq(&input("9", "12", vec![ident("N", 7)])).unwrap();
    assert_eq!(out, vec![lit("9", 7), lit("10", 7), lit("11", 7)]);
}

#[test]
fn empty_and_reversed_ranges_expand_to_nothing() {
    assert_eq!(macro_workshop::seq::seq(&input("3", "3", vec![ident("N", 7)])).unwrap(), vec![]);
    assert_eq!(macro_workshop::seq::seq(&input("5", "2", vec![ident("N", 7)])).unwrap(), vec![]);
}

#[test]
fn body_without_the_name_is_repeated_unchanged() {
    let body = vec![ident("y", 8), lit("\"s\"", 9)];
    let out = macro_workshop::seq::seq(&input("0", "2", body)).unwrap();
    assert_eq!(out, vec![ident("y", 8), lit("\"s\"", 9), ident("y", 8), lit("\"s\"", 9)]);
}

#[test]
fn expansion_length_and_no_name_left() {
    let body = vec![ident("N", 7), group(GroupDelimiter::Brace, 8, vec![ident("N", 9)]), ident("z", 10)];
    let out = macro_workshop::seq::seq(&input("1", "5", body)).unwrap();
    assert_eq!(out.len(), 4 * 3);
    fn mentions(ts: &[Tok]) -> bool {
        ts.iter().any(|t| match t {
            Tok::Ident { text, .. } => text == "N",
            Tok::Group { stream, .. } => mentions(stream),
            _ => false,
        })
    }
    assert!(!mentions(&out));
}

#[test]
fn hexadecimal_and_suffixed_bounds() {
    assert_eq!(macro_workshop::seq::seq(&input("0x2", "0x4", vec![ident("N", 7)])).unwrap(), vec![lit("2", 7), lit("3", 7)]);
    assert_eq!(macro_workshop::seq::seq(&input("1u8", "3u8", vec![ident("N", 7)])).unwrap(), vec![lit("1", 7), lit("2", 7)]);
}

#[test]
fn raw_identifier_matches_only_itself() {
    let mut inp = input("0", "1", vec![ident("r#N", 7), ident("N", 8)]);
    inp[0] = ident("r#N", 0);
    assert_eq!(macro_workshop::seq::seq(&inp).unwrap(), vec![lit("0", 7), ident("N", 8)]);
}

#[test]
fn invisible_groups_are_looked_through() {
    let mut inp = input("0", "2", vec![ident("N", 7)]);
    let name = inp.remove(0);
    inp.insert(0, group(GroupDelimiter::Invisible, 30, vec![name]));
    assert_eq!(macro_workshop::seq::seq(&inp).unwrap(), vec![lit("0", 7), lit("1", 7)]);
}

#[test]
fn empty_input_expects_identifier_at_end() {
    assert_eq!(macro_workshop::seq::seq(&vec![]), Err(parse_error(SeqParseErrorKind::ExpectedIdent, None)));
}

#[test]
fn keyword_is_no_name() {
    let mut inp = input("0", "1", vec![]);
    inp[0] = ident("in", 0);
    assert_eq!(macro_workshop::seq::seq(&inp), Err(parse_error(SeqParseErrorKind::ExpectedIdent, Some(0))));
    inp[0] = ident("_", 0);
    assert_eq!(macro_workshop::seq::seq(&inp), Err(parse_error(SeqParseErrorKind::ExpectedIdent, Some(0))));
    inp[0] = lit("1", 0);
    assert_eq!(macro_workshop::seq::seq(&inp), Err(parse_error(SeqParseErrorKind::ExpectedIdent, Some(0))));
}

#[test]
fn missing_in() {
    let mut inp = input("0", "1", vec![]);
    inp[1] = ident("on", 1);
    assert_eq!(macro_workshop::seq::seq(&inp), Err(parse_error(SeqParseErrorKind::ExpectedIn, Some(1))));
    inp.truncate(1);
    assert_eq!(macro_workshop::seq::seq(&inp), Err(parse_error(SeqParseErrorKind::ExpectedIn, None)));
}

#[test]
fn bound_that_is_no_integer_literal() {
    assert_eq!(
        macro_workshop::seq::seq(&input("1.5", "3", vec![])),
        Err(parse_error(SeqParseErrorKind::ExpectedIntLiteral, Some(2)))
    );
    assert_eq!(
        macro_workshop::seq::seq(&input("0", "\"a\"", vec![])),
        Err(parse_error(SeqParseErrorKind::ExpectedIntLiteral, Some(5)))
    );
    let mut inp = input("0", "1", vec![]);
    inp[2] = ident("zero", 2);
    assert_eq!(macro_workshop::seq::seq(&inp), Err(parse_error(SeqParseErrorKind::ExpectedIntLiteral, Some(2))));
}

#[test]
fn negative_start_reads_but_does_not_fit() {
    let mut inp = input("1", "2", vec![ident("N", 7)]);
    inp.insert(2, punct('-', PunctSpacing::Alone, 40));
    assert_eq!(macro_workshop::seq::seq(&inp), Err(SeqError::StartNotU16));
    let (parsed, _) = SeqMacro::parse(&inp).unwrap();
    assert_eq!(parsed.start, "-1");
}

#[test]
fn bounds_that_do_not_fit_u16() {
    assert_eq!(macro_workshop::seq::seq(&input("70000", "70001", vec![])), Err(SeqError::StartNotU16));
    assert_eq!(macro_workshop::seq::seq(&input("0", "70000", vec![])), Err(SeqError::EndNotU16));
    assert_eq!(macro_workshop::seq::seq(&input("0", "65535", vec![])), Ok(vec![]));
}

#[test]
fn missing_dot_dot() {
    let mut inp = input("0", "1", vec![]);
    inp[3] = punct('.', PunctSpacing::Alone, 3);
    assert_eq!(macro_workshop::seq::seq(&inp), Err(parse_error(SeqParseErrorKind::ExpectedDotDot, Some(3))));
    let mut inp = input("0", "1", vec![]);
    inp[4] = punct('=', PunctSpacing::Alone, 4);
    assert_eq!(macro_workshop::seq::seq(&inp), Err(parse_error(SeqParseErrorKind::ExpectedDotDot, Some(3))));
}

#[test]
fn missing_braces() {
    let mut inp = input("0", "1", vec![]);
    inp[6] = group(GroupDelimiter::Parenthesis, 6, vec![]);
    assert_eq!(macro_workshop::seq::seq(&inp), Err(parse_error(SeqParseErrorKind::ExpectedBraces, Some(6))));
    inp.truncate(6);
    assert_eq!(macro_workshop::seq::seq(&inp), Err(parse_error(SeqParseErrorKind::ExpectedBraces, None)));
}

#[test]
fn trailing_tokens() {
    let mut inp = input("0", "1", vec![]);
    inp.push(ident("extra", 50));
    assert_eq!(macro_workshop::seq::seq(&inp), Err(parse_error(SeqParseErrorKind::UnexpectedToken, Some(50))));
}

#[test]
fn parse_reads_the_parts() {
    let (parsed, _) = SeqMacro::parse(&input("2", "7", vec![ident("a", 9)])).unwrap();
    assert_eq!(parsed.name, "N");
    assert_eq!(parsed.start, "2");
    assert_eq!(parsed.end, "7");
    assert_eq!(parsed.contents, vec![ident("a", 9)]);
    assert_eq!(parsed.expand(), (0..5).map(|_| ident("a", 9)).collect::<Vec<_>>());
}

#[test]
fn expand_tt_replaces_only_the_name() {
    let (parsed, _) = SeqMacro::parse(&input("0", "1", vec![])).unwrap();
    let name = "N".to_string();
    assert_eq!(parsed.expand_tt(&ident("N", 3), &name, 12), lit("12", 3));
    assert_eq!(parsed.expand_tt(&ident("Nx", 3), &name, 12), ident("Nx", 3));
    assert_eq!(parsed.expand_tt(&lit("N", 3), &name, 12), lit("N", 3));
}

#[test]
fn error_messages() {
    assert_eq!(SeqParseErrorKind::ExpectedIdent.message(), "expected identifier");
    assert_eq!(SeqParseErrorKind::ExpectedIn.message(), "expected `in`");
    assert_eq!(SeqParseErrorKind::ExpectedIntLiteral.message(), "expected integer literal");
    assert_eq!(SeqParseErrorKind::ExpectedDotDot.message(), "expected `..`");
    assert_eq!(SeqParseErrorKind::ExpectedBraces.message(), "expected curly braces");
    assert_eq!(SeqParseErrorKind::UnexpectedToken.message(), "unexpected token");
}

#[test]
fn errors_at_the_end_of_the_input_say_so() {
    let at_end = |kind| SeqParseError { kind, span: None }.message();
    assert_eq!(at_end(SeqParseErrorKind::ExpectedIdent), "unexpected end of input, expected identifier");
    assert_eq!(at_end(SeqParseErrorKind::ExpectedIn), "unexpected end of input, expected `in`");
    assert_eq!(at_end(SeqParseErrorKind::ExpectedIntLiteral), "unexpected end of input, expected integer literal");
    assert_eq!(at_end(SeqParseErrorKind::ExpectedBraces), "unexpected end of input, expected curly braces");
    assert_eq!(at_end(SeqParseErrorKind::ExpectedDotDot), "expected `..`");
    let inside = SeqParseError { kind: SeqParseErrorKind::ExpectedIn, span: Some(3) };
    assert_eq!(inside.message(), "expected `in`");
}

#[test]
fn parse_leaves_tokens_after_the_braces() {
    let mut inp = input("0", "4", vec![]);
    inp.push(punct(';', PunctSpacing::Alone, 50));
    let (parsed, rest) = SeqMacro::parse(&inp).unwrap();
    assert_eq!(parsed.end, "4");
    assert_eq!(rest, vec![punct(';', PunctSpacing::Alone, 50)]);
}

#[test]
fn expansion_holds_the_variable_nowhere() {
    fn mentions(ts: &[Tok]) -> bool {
        ts.iter().any(|t| match t {
            Tok::Group { stream, .. } => mentions(stream),
            Tok::Ident { text, .. } => text == "N",
            _ => false,
        })
    }
    let body = vec![
        ident("f", 20),
        group(
            GroupDelimiter::Parenthesis,
            21,
            vec![ident("N", 22), group(GroupDelimiter::Bracket, 23, vec![ident("N", 24)])],
        ),
    ];
    let out = macro_workshop::seq::seq(&input("0", "3", body)).unwrap();
    assert_eq!(out.len(), 6);
    assert!(!mentions(&out));
}
