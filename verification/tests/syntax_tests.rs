use macro_workshop::model::{DataModel, GenericParamModel};
use macro_workshop::syntax::{read_derive_input, ReadError};
use macro_workshop::tokens::{valid_puncts, GroupDelimiter, PunctSpacing, Tok};

/// Lexes source text into token trees.
fn toks(src: &str) -> Vec<Tok> {
    fn convert(ts: proc_macro2::TokenStream) -> Vec<Tok> {
        ts.into_iter()
            .map(|tt| match tt {
                proc_macro2::TokenTree::Group(g) => Tok::Group {
                    delimiter: match g.delimiter() {
                        proc_macro2::Delimiter::Parenthesis => GroupDelimiter::Parenthesis,
                        proc_macro2::Delimiter::Brace => GroupDelimiter::Brace,
                        proc_macro2::Delimiter::Bracket => GroupDelimiter::Bracket,
                        proc_macro2::Delimiter::None => GroupDelimiter::Invisible,
                    },
                    span: 0,
                    stream: convert(g.stream()),
                },
                proc_macro2::TokenTree::Ident(i) => Tok::Ident { text: i.to_string(), span: 0 },
                proc_macro2::TokenTree::Punct(p) => Tok::Punct {
                    ch: p.as_char(),
                    spacing: match p.spacing() {
                        proc_macro2::Spacing::Alone => PunctSpacing::Alone,
                        proc_macro2::Spacing::Joint => PunctSpacing::Joint,
                    },
                    span: 0,
                },
                proc_macro2::TokenTree::Literal(l) => Tok::Literal { text: l.to_string(), span: 0 },
            })
            .collect()
    }
    convert(src.parse().unwrap())
}

/// Writes token trees out, one space between any two of them.
fn show(ts: &[Tok]) -> String {
    ts.iter()
        .map(|t| match t {
            Tok::Group { delimiter, stream, .. } => {
                let (open, close) = match delimiter {
                    GroupDelimiter::Parenthesis => ("(", ")"),
                    GroupDelimiter::Brace => ("{", "}"),
                    GroupDelimiter::Bracket => ("[", "]"),
                    GroupDelimiter::Invisible => ("<<", ">>"),
                };
                if stream.is_empty() {
                    format!("{}{}", open, close)
                } else {
                    format!("{} {} {}", open, show(stream), close)
                }
            }
            Tok::Ident { text, .. } | Tok::Literal { text, .. } => text.clone(),
            Tok::Punct { ch, .. } => ch.to_string(),
        })
        .collect::<Vec<_>>()
        .join(" ")
}

fn s(x: &str) -> String {
    x.to_string()
}

#[test]
fn read_derive_input_reads_fields_and_generics() {
    let m = read_derive_input(&toks("struct S<T> { x: T, #[a] y: Vec<T> }")).unwrap();
    assert_eq!(m.ident, "S");
    assert_eq!(m.generics.params.len(), 1);
    match &m.generics.params[0] {
        GenericParamModel::Type { attrs, name, bounds } => {
            assert!(attrs.is_empty());
            assert_eq!(name, "T");
            assert!(bounds.is_empty());
        }
        other => panic!("a type parameter, not {:?}", other),
    }
    assert!(m.generics.where_clause.is_empty());
    match m.data {
        DataModel::NamedStruct(fields) => {
            assert_eq!(fields.len(), 2);
            assert_eq!(fields[0].ident, "x");
            assert_eq!(show(&fields[0].ty.tokens), "T");
            assert_eq!(fields[1].ident, "y");
            assert_eq!(show(&fields[1].ty.tokens), "Vec < T >");
            assert_eq!(fields[1].attrs.len(), 1);
            assert_eq!(fields[1].attrs[0].path_first, "a");
            assert_eq!(show(&fields[1].attrs[0].tokens), "# [ a ]");
        }
        DataModel::Other => panic!("a struct with named fields"),
    }
}

#[test]
fn joint_punctuation_is_kept() {
    // `::` is two joint colons: read with their spacing, the path has two segments.
    let m = read_derive_input(&toks("struct S { x: a::B }")).unwrap();
    match m.data {
        DataModel::NamedStruct(fields) => assert_eq!(fields[0].ty.path.as_ref().map(|p| p.len()), Some(2)),
        DataModel::Other => panic!("a struct with named fields"),
    }
    let apart = vec![
        Tok::Ident { text: s("a"), span: 0 },
        Tok::Punct { ch: ':', spacing: PunctSpacing::Alone, span: 0 },
        Tok::Punct { ch: ':', spacing: PunctSpacing::Alone, span: 0 },
        Tok::Ident { text: s("B"), span: 0 },
    ];
    let mut input = toks("struct S { x: }");
    if let Tok::Group { stream, .. } = &mut input[2] {
        stream.extend(apart);
    }
    assert!(matches!(read_derive_input(&input), Err(ReadError::Syntax(_))));
}

#[test]
fn unreadable_input_is_a_syntax_error() {
    let one = vec![Tok::Ident { text: s("struct"), span: 0 }];
    assert!(matches!(read_derive_input(&one), Err(ReadError::Syntax(_))));
    assert!(matches!(read_derive_input(&toks("struct S { x }")), Err(ReadError::Syntax(_))));
}

#[test]
fn enums_and_tuple_structs_are_other_items() {
    assert!(matches!(read_derive_input(&toks("enum E { A }")).unwrap().data, DataModel::Other));
    assert!(matches!(read_derive_input(&toks("struct T(u8);")).unwrap().data, DataModel::Other));
    assert!(matches!(read_derive_input(&toks("union U { a: u8 }")).unwrap().data, DataModel::Other));
}

#[test]
fn punctuation_characters_are_checked() {
    assert!(valid_puncts(&toks("a :: b <'x> #[y] { c + d }")));
    let bad = vec![Tok::Group {
        delimiter: GroupDelimiter::Parenthesis,
        span: 0,
        stream: vec![Tok::Punct { ch: 'x', spacing: PunctSpacing::Alone, span: 0 }],
    }];
    assert!(!valid_puncts(&bad));
    assert!(valid_puncts(&vec![]));
}
