//! Reads a derive's input tokens into the plain models, with syn.
//!
//! syn reads the whole item first, then each field, type, generic parameter
//! and attribute on its own. Every syn call stands behind a small wrapper
//! that hands syn the tokens as `proc_macro2` token trees and hands back the
//! parts syn read as token trees of this crate (identifiers, punctuation with
//! its spacing, literals, groups with their delimiters); each wrapper's
//! result is named. The models are assembled from those results here.
//!
//! The token trees that come back from syn carry the span handle
//! `usize::MAX`: no span of the input can be told from them.
use vstd::prelude::*;
use quote::ToTokens;
use syn::GenericParam;
use crate::model::{
    AttrModel, BoundModel, DataModel, DeriveInputModel, FieldModel, GenericArg,
    GenericParamModel, GenericsModel, MetaItem, MetaModel, PathArgs, PathSegment, TypeModel,
};
use crate::tokens::{puncts_valid, stream_view, GroupDelimiter, PunctSpacing, Tok, TokV};

verus! {

/// syn's and proc_macro2's token stream, carried through unread.
#[verifier::external_type_specification]
#[verifier::external_body]
pub struct ExTokenStream(proc_macro2::TokenStream);

/// proc_macro2's group delimiter.
#[verifier::external_type_specification]
#[verifier::external_body]
pub struct ExPmDelimiter(proc_macro2::Delimiter);

/// proc_macro2's punctuation spacing.
#[verifier::external_type_specification]
#[verifier::external_body]
pub struct ExPmSpacing(proc_macro2::Spacing);

/// Converts a delimiter to proc_macro2's, variant for variant (`Invisible`
/// to `None`). Used inside the wrappers' conversions.
#[verifier::external_body]
fn pm2_delimiter(d: GroupDelimiter) -> proc_macro2::Delimiter {
    match d {
        GroupDelimiter::Parenthesis => proc_macro2::Delimiter::Parenthesis,
        GroupDelimiter::Brace => proc_macro2::Delimiter::Brace,
        GroupDelimiter::Bracket => proc_macro2::Delimiter::Bracket,
        GroupDelimiter::Invisible => proc_macro2::Delimiter::None,
    }
}

/// Converts a spacing to proc_macro2's, variant for variant. Used inside the
/// wrappers' conversions.
#[verifier::external_body]
fn pm2_spacing(s: PunctSpacing) -> proc_macro2::Spacing {
    match s {
        PunctSpacing::Alone => proc_macro2::Spacing::Alone,
        PunctSpacing::Joint => proc_macro2::Spacing::Joint,
    }
}

/// Converts token trees to a `proc_macro2::TokenStream`, tree for tree: a
/// group with `proc_macro2::Group::new`, a punctuation character with
/// `proc_macro2::Punct::new` (which panics on any other character: hence the
/// `requires`), an identifier or a literal by lexing its text with
/// `str::parse` (no tokens where the text does not lex). Spans are the call
/// site's. Used inside the wrappers.
#[verifier::external_body]
fn pm2_stream(tokens: &Vec<Tok>) -> proc_macro2::TokenStream
    requires
        puncts_valid(stream_view(tokens@)),
{
    tokens.iter().map(|t| -> proc_macro2::TokenStream {
        match t {
            Tok::Group { delimiter, stream, .. } => proc_macro2::TokenTree::from(
                proc_macro2::Group::new(pm2_delimiter(*delimiter), pm2_stream(stream))).into(),
            Tok::Punct { ch, spacing, .. } => proc_macro2::TokenTree::from(
                proc_macro2::Punct::new(*ch, pm2_spacing(*spacing))).into(),
            Tok::Ident { text, .. } | Tok::Literal { text, .. } => text.parse().unwrap_or_default(),
        }
    }).collect()
}

/// Converts proc_macro2's delimiter back, variant for variant. Used inside
/// the wrappers' conversions.
#[verifier::external_body]
fn model_delimiter(d: proc_macro2::Delimiter) -> GroupDelimiter {
    match d {
        proc_macro2::Delimiter::Parenthesis => GroupDelimiter::Parenthesis,
        proc_macro2::Delimiter::Brace => GroupDelimiter::Brace,
        proc_macro2::Delimiter::Bracket => GroupDelimiter::Bracket,
        proc_macro2::Delimiter::None => GroupDelimiter::Invisible,
    }
}

/// Converts proc_macro2's spacing back, variant for variant. Used inside the
/// wrappers' conversions.
#[verifier::external_body]
fn model_spacing(s: proc_macro2::Spacing) -> PunctSpacing {
    match s {
        proc_macro2::Spacing::Alone => PunctSpacing::Alone,
        proc_macro2::Spacing::Joint => PunctSpacing::Joint,
    }
}

/// Converts a `proc_macro2::TokenStream` to token trees, tree for tree: a
/// group's delimiter and contents, an identifier's and a literal's text
/// (`to_string`), a punctuation character (`as_char`) and its spacing. Every
/// span handle is `usize::MAX`. Used inside the wrappers.
#[verifier::external_body]
fn model_stream(ts: proc_macro2::TokenStream) -> Vec<Tok> {
    ts.into_iter().map(|tt| match tt {
        proc_macro2::TokenTree::Group(g) => Tok::Group {
            delimiter: model_delimiter(g.delimiter()), span: usize::MAX, stream: model_stream(g.stream()) },
        proc_macro2::TokenTree::Ident(i) => Tok::Ident { text: i.to_string(), span: usize::MAX },
        proc_macro2::TokenTree::Punct(p) => Tok::Punct {
            ch: p.as_char(), spacing: model_spacing(p.spacing()), span: usize::MAX },
        proc_macro2::TokenTree::Literal(l) => Tok::Literal { text: l.to_string(), span: usize::MAX },
    }).collect()
}

/// What syn reads of a whole derive input.
#[derive(Debug, PartialEq, Eq)]
pub struct DeriveShape {
    /// The item's name.
    pub ident: String,
    /// The tokens of each generic parameter.
    pub params: Vec<Vec<Tok>>,
    /// The tokens of the `where` clause (none without one).
    pub where_clause: Vec<Tok>,
    /// For a struct with named fields, the tokens of each field.
    pub fields: Option<Vec<Vec<Tok>>>,
}

/// What syn reads of one named field.
#[derive(Debug, PartialEq, Eq)]
pub struct FieldShape {
    pub ident: String,
    /// The tokens of the field's type.
    pub ty: Vec<Tok>,
    pub attrs: Vec<AttrModel>,
}

/// What `syn::parse2::<syn::DeriveInput>` reads of the tokens, or its error message.
pub uninterp spec fn syn_derive_input(tokens: Seq<TokV>) -> Result<DeriveShape, Seq<char>>;

/// What `syn::Field::parse_named` reads of the tokens.
pub uninterp spec fn syn_field(tokens: Seq<TokV>) -> Option<FieldShape>;

/// What `syn::parse2::<syn::Type>` reads of the tokens: `Some(None)` for a type
/// that is no path, `Some(Some(segments))` for a path type.
pub uninterp spec fn syn_type(tokens: Seq<TokV>) -> Option<Option<Vec<PathSegment>>>;

/// What `syn::parse2::<syn::GenericParam>` reads of the tokens.
pub uninterp spec fn syn_generic_param(tokens: Seq<TokV>) -> Option<GenericParamModel>;

/// What `Attribute::parse_meta` gives for the attribute made of the tokens.
pub uninterp spec fn syn_parse_meta(tokens: Seq<TokV>) -> Option<MetaModel>;

/// What `syn::parse2::<syn::NestedMeta>` reads of the tokens.
pub uninterp spec fn syn_meta_item(tokens: Seq<TokV>) -> Option<MetaItem>;

/// Whether every stream of a list holds only punctuation characters.
pub open spec fn all_puncts_valid(list: Seq<Vec<Tok>>) -> bool {
    forall|i: int| 0 <= i < list.len() ==> puncts_valid(stream_view(#[trigger] list[i]@))
}

/// Calls `syn::parse2::<syn::DeriveInput>` and hands back the item's name,
/// the tokens of its generic parameters, of its `where` clause and, for a
/// struct with named fields, of each field. Claimed: the outcome, error
/// message included, is a function of the tokens alone (syn's grammar is not
/// stated), and the tokens handed back hold only punctuation characters, as
/// every `proc_macro2::Punct` does.
#[verifier::external_body]
fn parse_derive_input(tokens: &Vec<Tok>) -> (r: Result<DeriveShape, String>)
    requires
        puncts_valid(stream_view(tokens@)),
    ensures
        match r {
            Ok(d) => syn_derive_input(stream_view(tokens@)) == Ok::<DeriveShape, Seq<char>>(d)
                && all_puncts_valid(d.params@) && match d.fields {
                Some(fs) => all_puncts_valid(fs@),
                None => true,
            },
            Err(m) => syn_derive_input(stream_view(tokens@)) == Err::<DeriveShape, Seq<char>>(m@),
        },
{
    let d = syn::parse2::<syn::DeriveInput>(pm2_stream(tokens)).map_err(|e| e.to_string())?;
    Ok(DeriveShape {
        ident: d.ident.to_string(),
        params: d.generics.params.iter().map(|p| model_stream(p.to_token_stream())).collect(),
        where_clause: model_stream(d.generics.where_clause.to_token_stream()),
        fields: match d.data {
            syn::Data::Struct(syn::DataStruct { fields: syn::Fields::Named(n), .. }) => Some(
                n.named.iter().map(|f| model_stream(f.to_token_stream())).collect()),
            _ => None,
        },
    })
}

/// Whether the tokens of an attribute list hold only punctuation characters.
pub open spec fn attrs_puncts_valid(attrs: Seq<AttrModel>) -> bool {
    forall|i: int| 0 <= i < attrs.len() ==> puncts_valid(stream_view(#[trigger] attrs[i].tokens@))
}

/// Calls `syn::Field::parse_named` on the tokens and hands back the field's
/// name, its type's tokens and each attribute (the first segment of its path
/// and its tokens). Claimed: a function of the tokens alone, and the tokens
/// handed back hold only punctuation characters.
#[verifier::external_body]
fn parse_field(tokens: &Vec<Tok>) -> (r: Option<FieldShape>)
    requires
        puncts_valid(stream_view(tokens@)),
    ensures
        r == syn_field(stream_view(tokens@)),
        r matches Some(f) ==> puncts_valid(stream_view(f.ty@)) && attrs_puncts_valid(f.attrs@),
{
    let f = syn::parse::Parser::parse2(syn::Field::parse_named, pm2_stream(tokens)).ok()?;
    Some(FieldShape {
        ident: f.ident.as_ref()?.to_string(),
        ty: model_stream(f.ty.to_token_stream()),
        attrs: f.attrs.iter().map(|a| AttrModel {
            path_first: a.path.segments.first().map_or(String::new(), |s| s.ident.to_string()),
            tokens: model_stream(a.to_token_stream()),
        }).collect(),
    })
}

/// Whether a generic argument, where it is a type, holds only punctuation characters.
pub open spec fn arg_puncts_valid(arg: GenericArg) -> bool {
    match arg {
        GenericArg::Type(t) => puncts_valid(stream_view(t@)),
        GenericArg::Other => true,
    }
}

/// Whether every type argument of a segment holds only punctuation characters.
pub open spec fn path_args_puncts_valid(args: PathArgs) -> bool {
    match args {
        PathArgs::AngleBracketed(a) => forall|j: int|
            0 <= j < a@.len() ==> arg_puncts_valid(#[trigger] a@[j]),
        _ => true,
    }
}

/// Whether every type argument of the segments holds only punctuation characters.
pub open spec fn segments_puncts_valid(segs: Seq<PathSegment>) -> bool {
    forall|i: int| 0 <= i < segs.len() ==> path_args_puncts_valid(#[trigger] segs[i].args)
}

/// Calls `syn::parse2::<syn::Type>` and hands back, for a path type, each
/// segment's name and arguments (a type argument as its tokens). Claimed: a
/// function of the tokens alone, and the tokens handed back hold only
/// punctuation characters.
#[verifier::external_body]
fn parse_type(tokens: &Vec<Tok>) -> (r: Option<Option<Vec<PathSegment>>>)
    requires
        puncts_valid(stream_view(tokens@)),
    ensures
        r == syn_type(stream_view(tokens@)),
        r matches Some(Some(segs)) ==> segments_puncts_valid(segs@),
{
    let syn::Type::Path(tp) = syn::parse2::<syn::Type>(pm2_stream(tokens)).ok()? else { return Some(None) };
    Some(Some(tp.path.segments.iter().map(|s| PathSegment { ident: s.ident.to_string(), args: match &s.arguments {
        syn::PathArguments::None => PathArgs::NoArgs,
        syn::PathArguments::AngleBracketed(a) => PathArgs::AngleBracketed(a.args.iter().map(|g| match g {
            syn::GenericArgument::Type(t) => GenericArg::Type(model_stream(t.to_token_stream())),
            _ => GenericArg::Other,
        }).collect()),
        syn::PathArguments::Parenthesized(_) => PathArgs::Parenthesized,
    } }).collect()))
}

/// Calls `syn::parse2::<syn::GenericParam>` and hands back the parameter: a
/// type parameter's attributes, name and bounds, a lifetime and its whole
/// definition, a constant's attributes, name and type, each as tokens.
/// Claimed: a function of the tokens alone.
#[verifier::external_body]
fn parse_generic_param(tokens: &Vec<Tok>) -> (r: Option<GenericParamModel>)
    requires
        puncts_valid(stream_view(tokens@)),
    ensures
        r == syn_generic_param(stream_view(tokens@)),
{
    Some(match syn::parse2::<GenericParam>(pm2_stream(tokens)).ok()? {
        GenericParam::Type(t) => GenericParamModel::Type {
            attrs: model_stream(t.attrs.iter().map(ToTokens::to_token_stream).collect()),
            name: t.ident.to_string(),
            bounds: t.bounds.iter().map(|b| BoundModel::Given(model_stream(b.to_token_stream()))).collect() },
        GenericParam::Lifetime(l) => GenericParamModel::Lifetime {
            lifetime: model_stream(l.lifetime.to_token_stream()), def: model_stream(l.to_token_stream()) },
        GenericParam::Const(c) => GenericParamModel::Const {
            attrs: model_stream(c.attrs.iter().map(ToTokens::to_token_stream).collect()),
            name: c.ident.to_string(), ty: model_stream(c.ty.to_token_stream()) },
    })
}

/// Reads the attribute made of the tokens with `Attribute::parse_outer` and
/// calls `Attribute::parse_meta` on it, handing back a `path = "string"` form
/// (the first segment of its path and the string's value), a list (the tokens
/// of each item), or any other form. Claimed: a function of the tokens alone;
/// `None` where they read as no attribute or its contents as no meta item; the
/// tokens handed back hold only punctuation characters.
#[verifier::external_body]
pub(crate) fn parse_meta(tokens: &Vec<Tok>) -> (r: Option<MetaModel>)
    requires
        puncts_valid(stream_view(tokens@)),
    ensures
        r == syn_parse_meta(stream_view(tokens@)),
        r matches Some(MetaModel::List(items)) ==> all_puncts_valid(items@),
{
    let attr = syn::parse::Parser::parse2(syn::Attribute::parse_outer, pm2_stream(tokens)).ok()?.pop()?;
    Some(match attr.parse_meta().ok()? {
        syn::Meta::NameValue(syn::MetaNameValue { path, lit: syn::Lit::Str(s), .. }) => MetaModel::NameValueStr {
            path_first: path.segments.first().map_or(String::new(), |s| s.ident.to_string()),
            value: s.value(),
        },
        syn::Meta::List(l) => MetaModel::List(l.nested.iter().map(|n| model_stream(n.to_token_stream())).collect()),
        _ => MetaModel::Other,
    })
}

/// Calls `syn::parse2::<syn::NestedMeta>` and hands back a `path = "string"`
/// item (the first segment of its path and the string's value), or any other
/// item. Claimed: a function of the tokens alone.
#[verifier::external_body]
pub(crate) fn parse_meta_item(tokens: &Vec<Tok>) -> (r: Option<MetaItem>)
    requires
        puncts_valid(stream_view(tokens@)),
    ensures
        r == syn_meta_item(stream_view(tokens@)),
{
    Some(match syn::parse2::<syn::NestedMeta>(pm2_stream(tokens)).ok()? {
        syn::NestedMeta::Meta(syn::Meta::NameValue(syn::MetaNameValue { path, lit: syn::Lit::Str(s), .. })) => MetaItem::NameValueStr {
            path_first: path.segments.first().map_or(String::new(), |s| s.ident.to_string()),
            value: s.value(),
        },
        _ => MetaItem::Other,
    })
}

/// The segments of the type made of `tokens`, as syn reads them (tokens that
/// do not read count as no path).
pub open spec fn type_path(tokens: Seq<TokV>) -> Option<Vec<PathSegment>> {
    match syn_type(tokens) {
        Some(p) => p,
        None => None,
    }
}

/// Whether `m` is the type model of the type made of `tokens`: those tokens,
/// and the segments syn reads.
pub open spec fn type_model_of(tokens: Seq<TokV>, m: TypeModel) -> bool {
    &&& stream_view(m.tokens@) == tokens
    &&& m.path == type_path(tokens)
}

/// Reads the type made of `tokens`.
pub fn type_model(tokens: Vec<Tok>) -> (r: TypeModel)
    requires
        puncts_valid(stream_view(tokens@)),
    ensures
        type_model_of(stream_view(tokens@), r),
        r.tokens == tokens,
        r.path matches Some(segs) ==> segments_puncts_valid(segs@),
{
    let path = match parse_type(&tokens) {
        Some(p) => p,
        None => None,
    };
    TypeModel { tokens, path }
}

/// Whether `f` is the model of the field made of `tokens`.
pub open spec fn field_model_of(tokens: Seq<TokV>, f: FieldModel) -> bool {
    &&& syn_field(tokens) is Some
    &&& f.ident == syn_field(tokens)->0.ident
    &&& f.ty.tokens == syn_field(tokens)->0.ty
    &&& f.ty.path == type_path(stream_view(syn_field(tokens)->0.ty@))
    &&& f.attrs == syn_field(tokens)->0.attrs
}

/// Whether a field model holds only punctuation characters in its tokens.
pub open spec fn field_puncts_valid(f: FieldModel) -> bool {
    &&& puncts_valid(stream_view(f.ty.tokens@))
    &&& attrs_puncts_valid(f.attrs@)
    &&& (f.ty.path matches Some(segs) ==> segments_puncts_valid(segs@))
}

/// Whether every part that syn reads on its own (each generic parameter and
/// each field) reads.
pub open spec fn derive_input_readable(tokens: Seq<TokV>) -> bool {
    &&& syn_derive_input(tokens) is Ok
    &&& forall|i: int|
        0 <= i < syn_derive_input(tokens)->Ok_0.params@.len() ==> (#[trigger] syn_generic_param(
            stream_view(syn_derive_input(tokens)->Ok_0.params@[i]@),
        )) is Some
    &&& match syn_derive_input(tokens)->Ok_0.fields {
        Some(fs) => forall|i: int|
            0 <= i < fs@.len() ==> (#[trigger] syn_field(stream_view(fs@[i]@))) is Some,
        None => true,
    }
}

/// Whether `m` is the model of the derive input made of `tokens`.
pub open spec fn derive_input_of(tokens: Seq<TokV>, m: DeriveInputModel) -> bool {
    &&& syn_derive_input(tokens) is Ok
    &&& {
        let d = syn_derive_input(tokens)->Ok_0;
        &&& m.ident == d.ident
        &&& m.generics.where_clause == d.where_clause
        &&& m.generics.params@.len() == d.params@.len()
        &&& forall|i: int|
            0 <= i < d.params@.len() ==> syn_generic_param(stream_view(#[trigger] d.params@[i]@))
                == Some(m.generics.params@[i])
        &&& match d.fields {
            None => m.data is Other,
            Some(fs) => {
                &&& m.data is NamedStruct
                &&& named_fields_of(m).len() == fs@.len()
                &&& forall|i: int|
                    0 <= i < fs@.len() ==> field_model_of(
                        stream_view(#[trigger] fs@[i]@),
                        named_fields_of(m)[i],
                    )
            },
        }
    }
}

/// The fields of a struct with named fields.
pub open spec fn named_fields_of(m: DeriveInputModel) -> Seq<FieldModel> {
    crate::model::named_fields(m)
}

/// Whether every field of a model holds only punctuation characters in its tokens.
pub open spec fn input_puncts_valid(m: DeriveInputModel) -> bool {
    forall|i: int|
        0 <= i < crate::model::named_fields(m).len() ==> field_puncts_valid(
            #[trigger] crate::model::named_fields(m)[i],
        )
}

/// Why a derive input could not be read.
#[derive(Debug, PartialEq, Eq)]
pub enum ReadError {
    /// syn does not read the tokens as an item; its message.
    Syntax(String),
    /// A generic parameter or a field, read on its own, does not read.
    Unreadable,
}

/// Reads the tokens of a derive input into its model.
pub fn read_derive_input(tokens: &Vec<Tok>) -> (r: Result<DeriveInputModel, ReadError>)
    requires
        puncts_valid(stream_view(tokens@)),
    ensures
        r is Ok <==> derive_input_readable(stream_view(tokens@)),
        match r {
            Ok(m) => derive_input_of(stream_view(tokens@), m) && input_puncts_valid(m),
            Err(ReadError::Syntax(msg)) => syn_derive_input(stream_view(tokens@))
                == Err::<DeriveShape, Seq<char>>(msg@),
            Err(ReadError::Unreadable) => syn_derive_input(stream_view(tokens@)) is Ok,
        },
{
    let shape = match parse_derive_input(tokens) {
        Ok(d) => d,
        Err(msg) => {
            return Err(ReadError::Syntax(msg));
        },
    };
    let ghost d = shape;
    let ghost tv = stream_view(tokens@);
    let DeriveShape { ident, params: param_tokens, where_clause, fields: field_tokens } = shape;
    let mut params: Vec<GenericParamModel> = Vec::new();
    let mut i: usize = 0;
    while i < param_tokens.len()
        invariant
            i <= param_tokens.len(),
            param_tokens == d.params,
            all_puncts_valid(param_tokens@),
            tv == stream_view(tokens@),
            syn_derive_input(tv) == Ok::<DeriveShape, Seq<char>>(d),
            params@.len() == i,
            forall|j: int|
                0 <= j < i ==> syn_generic_param(stream_view(#[trigger] param_tokens@[j]@))
                    == Some(params@[j]),
        decreases param_tokens.len() - i,
    {
        proof {
            assert(puncts_valid(stream_view(param_tokens@[i as int]@)));
        }
        match parse_generic_param(&param_tokens[i]) {
            Some(p) => params.push(p),
            None => {
                return Err(ReadError::Unreadable);
            },
        }
        i += 1;
    }
    let data = match field_tokens {
        None => DataModel::Other,
        Some(texts) => {
            let mut fields: Vec<FieldModel> = Vec::new();
            let mut k: usize = 0;
            while k < texts.len()
                invariant
                    k <= texts.len(),
                    d.fields == Some(texts),
                    all_puncts_valid(texts@),
                    tv == stream_view(tokens@),
                    syn_derive_input(tv) == Ok::<DeriveShape, Seq<char>>(d),
                    param_tokens == d.params,
                    params@.len() == param_tokens@.len(),
                    forall|j: int|
                        0 <= j < param_tokens@.len() ==> syn_generic_param(
                            stream_view(#[trigger] param_tokens@[j]@),
                        ) == Some(params@[j]),
                    fields@.len() == k,
                    forall|j: int|
                        0 <= j < k ==> field_model_of(stream_view(#[trigger] texts@[j]@), fields@[j]),
                    forall|j: int| 0 <= j < k ==> field_puncts_valid(#[trigger] fields@[j]),
                decreases texts.len() - k,
            {
                proof {
                    assert(puncts_valid(stream_view(texts@[k as int]@)));
                }
                match parse_field(&texts[k]) {
                    Some(shape) => {
                        let FieldShape { ident, ty, attrs } = shape;
                        let ty_model = type_model(ty);
                        fields.push(FieldModel { ident, ty: ty_model, attrs });
                    },
                    None => {
                        return Err(ReadError::Unreadable);
                    },
                }
                k += 1;
            }
            DataModel::NamedStruct(fields)
        },
    };
    Ok(DeriveInputModel { ident, generics: GenericsModel { params, where_clause }, data })
}

/// The tokens determine the model: two models of the same input agree on the
/// name, the generics, the kind of item and every field.
pub proof fn lemma_derive_input_unique(tokens: Seq<TokV>, m1: DeriveInputModel, m2: DeriveInputModel)
    requires
        derive_input_of(tokens, m1),
        derive_input_of(tokens, m2),
    ensures
        m1.ident == m2.ident,
        m1.generics.where_clause == m2.generics.where_clause,
        m1.generics.params@ == m2.generics.params@,
        m1.data is NamedStruct <==> m2.data is NamedStruct,
        named_fields_of(m1) == named_fields_of(m2),
{
    let d = syn_derive_input(tokens)->Ok_0;
    assert(m1.generics.params@ =~= m2.generics.params@) by {
        assert forall|i: int| 0 <= i < m1.generics.params@.len() implies m1.generics.params@[i]
            == m2.generics.params@[i] by {
            assert(syn_generic_param(stream_view(d.params@[i]@)) == Some(m1.generics.params@[i]));
        }
    }
    if let Some(fs) = d.fields {
        assert(named_fields_of(m1) =~= named_fields_of(m2)) by {
            assert forall|i: int| 0 <= i < named_fields_of(m1).len() implies named_fields_of(m1)[i]
                == named_fields_of(m2)[i] by {
                assert(field_model_of(stream_view(fs@[i]@), named_fields_of(m1)[i]));
                assert(field_model_of(stream_view(fs@[i]@), named_fields_of(m2)[i]));
            }
        }
    } else {
        assert(named_fields_of(m1) =~= named_fields_of(m2));
    }
}

} // verus!
