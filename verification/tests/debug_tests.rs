use macro_workshop::debug::{
    add_trait_bounds, analyze_fields, debug_attr_error_message, derive_custom_debug, DebugFailure,
    FieldDebug,
};
use macro_workshop::model::{AttrModel, BoundModel, FieldModel, GenericParamModel, GenericsModel};
use macro_workshop::syntax::{type_model, ReadError};
use macro_workshop::tokens::{GroupDelimiter, PunctSpacing, Tok};

/// Lexes source text into token trees.
fn toks(src: &str) -> Vec<Tok> {
    fn convert(ts: proc_macro2::TokenStream) -> Vec<Tok> {
        ts.into_iter()
            .map(|tt| match tt {
                proc_macro2::TokenTree::Group(g) => Tok::Group {
                    delimiter: match g.delimiter() {
                        proc_macro2::Delimiter::Parenthesis => GroupDelimiter::Parenthesis,
                        proc_macro2::Delimiter::Brace => GroupDelimiter::Brace,
                        proc_macro2::Delimiter::Bracket => GroupDelimiter::Bracket,
                        proc_macro2::Delimiter::None => GroupDelimiter::Invisible,
                    },
                    span: 0,
                    stream: convert(g.stream()),
                },
                proc_macro2::TokenTree::Ident(i) => Tok::Ident { text: i.to_string(), span: 0 },
                proc_macro2::TokenTree::Punct(p) => Tok::Punct {
                    ch: p.as_char(),
                    spacing: match p.spacing() {
                        proc_macro2::Spacing::Alone => PunctSpacing::Alone,
                        proc_macro2::Spacing::Joint => PunctSpacing::Joint,
                    },
                    span: 0,
                },
                proc_macro2::TokenTree::Literal(l) => Tok::Literal { text: l.to_string(), span: 0 },
            })
            .collect()
    }
    convert(src.parse().unwrap())
}

/// Writes token trees out, one space between any two of them.
fn show(ts: &[Tok]) -> String {
    ts.iter()
        .map(|t| match t {
            Tok::Group { delimiter, stream, .. } => {
                let (open, close) = match delimiter {
                    GroupDelimiter::Parenthesis => ("(", ")"),
                    GroupDelimiter::Brace => ("{", "}"),
                    GroupDelimiter::Bracket => ("[", "]"),
                    GroupDelimiter::Invisible => ("<<", ">>"),
                };
                if stream.is_empty() {
                    format!("{}{}", open, close)
                } else {
                    format!("{} {} {}", open, show(stream), close)
                }
            }
            Tok::Ident { text, .. } | Tok::Literal { text, .. } => text.clone(),
            Tok::Punct { ch, .. } => ch.to_string(),
        })
        .collect::<Vec<_>>()
        .join(" ")
}

fn s(x: &str) -> String {
    x.to_string()
}

fn field(name: &str, attrs: Vec<AttrModel>) -> FieldModel {
    FieldModel { ident: s(name), ty: type_model(toks("u8")), attrs }
}

fn debug_attr(text: &str) -> AttrModel {
    AttrModel { path_first: s("debug"), tokens: toks(text) }
}

/// How a field is written, with an attribute's tokens written out.
fn show_field(f: &FieldDebug<String, Vec<Tok>>) -> FieldDebug<String, String> {
    match f {
        FieldDebug::Plain { name } => FieldDebug::Plain { name: name.clone() },
        FieldDebug::Formatted { name, fmt } => FieldDebug::Formatted { name: name.clone(), fmt: fmt.clone() },
        FieldDebug::Error { attr } => FieldDebug::Error { attr: show(attr) },
    }
}

/// A generic parameter with its tokens written out, as `(kind, attrs, name, bounds or type)`.
fn show_param(p: &GenericParamModel) -> (String, String, String, Vec<String>) {
    match p {
        GenericParamModel::Type { attrs, name, bounds } => (
            s("type"),
            show(attrs),
            name.clone(),
            bounds
                .iter()
                .map(|b| match b {
                    BoundModel::Given(t) => show(t),
                    BoundModel::StdFmtDebug => s("std::fmt::Debug"),
                })
                .collect(),
        ),
        GenericParamModel::Lifetime { lifetime, def } => (s("lifetime"), s(""), show(lifetime), vec![show(def)]),
        GenericParamModel::Const { attrs, name, ty } => (s("const"), show(attrs), name.clone(), vec![show(ty)]),
    }
}

fn param(kind: &str, attrs: &str, name: &str, rest: &[&str]) -> (String, String, String, Vec<String>) {
    (s(kind), s(attrs), s(name), rest.iter().map(|x| s(x)).collect())
}

#[test]
fn field_without_attribute_is_plain() {
    assert_eq!(show_field(&analyze_fields(&field("name", vec![]))), FieldDebug::Plain { name: s("name") });
    let other = AttrModel { path_first: s("doc"), tokens: toks("#[doc = \"x\"]") };
    assert_eq!(show_field(&analyze_fields(&field("name", vec![other]))), FieldDebug::Plain { name: s("name") });
}

#[test]
fn debug_attribute_gives_format() {
    assert_eq!(
        show_field(&analyze_fields(&field("bitmask", vec![debug_attr("#[debug = \"0b{:08b}\"]")]))),
        FieldDebug::Formatted { name: s("bitmask"), fmt: s("0b{:08b}") }
    );
}

#[test]
fn first_debug_attribute_counts() {
    let attrs = vec![debug_attr("#[debug = \"{:x}\"]"), debug_attr("#[debug = \"{:o}\"]")];
    assert_eq!(
        show_field(&analyze_fields(&field("v", attrs))),
        FieldDebug::Formatted { name: s("v"), fmt: s("{:x}") }
    );
}

#[test]
fn malformed_debug_attribute_is_an_error() {
    for text in ["#[debug(x)]", "#[debug]", "#[debug = 3]", "#[debug = ]"] {
        let expected = show(&toks(text));
        assert_eq!(show_field(&analyze_fields(&field("v", vec![debug_attr(text)]))), FieldDebug::Error { attr: expected });
    }
    assert_eq!(debug_attr_error_message(), "expected `(debug = \"...\")`");
}

#[test]
fn name_value_with_other_path_is_plain() {
    let a = debug_attr("#[other = \"{}\"]");
    assert_eq!(show_field(&analyze_fields(&field("v", vec![a]))), FieldDebug::Plain { name: s("v") });
}

#[test]
fn type_parameters_get_debug_bound() {
    let generics = GenericsModel {
        params: vec![
            GenericParamModel::Lifetime { lifetime: toks("'a"), def: toks("'a") },
            GenericParamModel::Type { attrs: vec![], name: s("T"), bounds: vec![BoundModel::Given(toks("Clone"))] },
            GenericParamModel::Const { attrs: vec![], name: s("N"), ty: toks("usize") },
            GenericParamModel::Type { attrs: toks("#[cfg(x)]"), name: s("U"), bounds: vec![] },
        ],
        where_clause: toks("where T: Copy"),
    };
    let r = add_trait_bounds(generics);
    let params: Vec<_> = r.params.iter().map(show_param).collect();
    assert_eq!(
        params,
        vec![
            param("lifetime", "", "' a", &["' a"]),
            param("type", "", "T", &["Clone", "std::fmt::Debug"]),
            param("const", "", "N", &["usize"]),
            param("type", "# [ cfg ( x ) ]", "U", &["std::fmt::Debug"]),
        ]
    );
    assert_eq!(show(&r.where_clause), "where T : Copy");
}

#[test]
fn derive_writes_every_field_in_order() {
    let plan = derive_custom_debug(&toks(
        "pub struct Field<'a, T: Clone, const N: usize> where T: Copy { name: &'a str, #[debug = \"0b{:08b}\"] bitmask: T }",
    ))
    .unwrap();
    assert_eq!(plan.struct_name, "Field");
    let params: Vec<_> = plan.generics.params.iter().map(show_param).collect();
    assert_eq!(
        params,
        vec![
            param("lifetime", "", "' a", &["' a"]),
            param("type", "", "T", &["Clone", "std::fmt::Debug"]),
            param("const", "", "N", &["usize"]),
        ]
    );
    assert_eq!(show(&plan.generics.where_clause), "where T : Copy");
    let fields: Vec<_> = plan.fields.iter().map(show_field).collect();
    assert_eq!(
        fields,
        vec![
            FieldDebug::Plain { name: s("name") },
            FieldDebug::Formatted { name: s("bitmask"), fmt: s("0b{:08b}") },
        ]
    );
}

#[test]
fn derive_keeps_attributes_of_type_parameters() {
    let plan = derive_custom_debug(&toks("struct W<#[allow(unused)] T = u8> { t: T }")).unwrap();
    let params: Vec<_> = plan.generics.params.iter().map(show_param).collect();
    assert_eq!(params, vec![param("type", "# [ allow ( unused ) ]", "T", &["std::fmt::Debug"])]);
}

#[test]
fn derive_reports_what_it_cannot_read() {
    assert_eq!(derive_custom_debug(&toks("enum E { A }")), Err(DebugFailure::NotNamedStruct));
    match derive_custom_debug(&toks("struct")) {
        Err(DebugFailure::Read(ReadError::Syntax(msg))) => {
            assert_eq!(msg, "unexpected end of input, expected identifier")
        }
        other => panic!("a syntax error, not {:?}", other),
    }
}
