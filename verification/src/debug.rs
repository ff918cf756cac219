//! The `CustomDebug` derive.
//!
//! For a struct with named fields it plans an `impl Debug` that writes
//! `f.debug_struct("Name")` followed by one `.field(...)` per field, in order.
//! A field marked `#[debug = "fmt"]` is written through `format_args!(fmt, ..)`.
//! Every type parameter of the struct gets a `std::fmt::Debug` bound.
use vstd::prelude::*;
use crate::model::{
    find_attr, first_attr, has_attr, lemma_first_attr_at, lemma_no_attr, lemma_prefix_attrs, named_fields, BoundModel, DataModel, DeriveInputModel,
    FieldModel, GenericParamModel, GenericsModel, MetaModel,
};
use crate::syntax::{
    derive_input_of, derive_input_readable, field_puncts_valid, input_puncts_valid,
    lemma_derive_input_unique, parse_meta, read_derive_input, syn_derive_input, syn_parse_meta,
    DeriveShape, ReadError,
};
use crate::tokens::{copy_stream, puncts_valid, stream_view, Tok, TokV};

verus! {

/// How one field is written by the generated `fmt`. `S` is the type of names
/// and format strings and `T` that of an attribute's tokens: `String` and
/// `Vec<Tok>` in code, `Seq<char>` and `Seq<TokV>` in specifications.
#[derive(Debug, PartialEq, Eq)]
pub enum FieldDebug<S, T> {
    /// `.field("name", &self.name)`.
    Plain { name: S },
    /// `.field("name", &format_args!(fmt, &self.name))`.
    Formatted { name: S, fmt: S },
    /// The compile error "expected `(debug = \"...\")`", for the attribute made of `attr`.
    Error { attr: T },
}

impl View for FieldDebug<String, Vec<Tok>> {
    type V = FieldDebug<Seq<char>, Seq<TokV>>;

    open spec fn view(&self) -> FieldDebug<Seq<char>, Seq<TokV>> {
        match self {
            FieldDebug::Plain { name } => FieldDebug::Plain { name: name@ },
            FieldDebug::Formatted { name, fmt } => FieldDebug::Formatted { name: name@, fmt: fmt@ },
            FieldDebug::Error { attr } => FieldDebug::Error { attr: stream_view(attr@) },
        }
    }
}

/// The message of the error for a malformed debug attribute.
pub fn debug_attr_error_message() -> (r: &'static str)
    ensures
        r@ == "expected `(debug = \"...\")`"@,
{
    "expected `(debug = \"...\")`"
}

/// How a field is written: plainly without a `debug` attribute; through its
/// format string where the first `debug` attribute is `debug = "..."` (plainly
/// where that attribute's path, read as a meta item, does not start with
/// `debug`); as an error where the attribute has any other form.
pub open spec fn spec_debug_field(f: FieldModel) -> FieldDebug<Seq<char>, Seq<TokV>> {
    if !has_attr(f.attrs@, "debug"@) {
        FieldDebug::Plain { name: f.ident@ }
    } else {
        let a = f.attrs@[first_attr(f.attrs@, "debug"@)];
        match syn_parse_meta(stream_view(a.tokens@)) {
            Some(MetaModel::NameValueStr { path_first, value }) => if path_first@ == "debug"@ {
                FieldDebug::Formatted { name: f.ident@, fmt: value@ }
            } else {
                FieldDebug::Plain { name: f.ident@ }
            },
            _ => FieldDebug::Error { attr: stream_view(a.tokens@) },
        }
    }
}

/// Works out how one field is written.
pub fn analyze_fields(f: &FieldModel) -> (r: FieldDebug<String, Vec<Tok>>)
    requires
        field_puncts_valid(*f),
    ensures
        r@ == spec_debug_field(*f),
{
    let name = f.ident.clone();
    let debug_word: String = "debug".to_owned();
    if let Some(index) = find_attr(&f.attrs, &debug_word) {
        let a = &f.attrs[index];
        match parse_meta(&a.tokens) {
            Some(MetaModel::NameValueStr { path_first, value }) => {
                if path_first == debug_word {
                    return FieldDebug::Formatted { name, fmt: value };
                } else {
                    return FieldDebug::Plain { name };
                }
            },
            _ => {
                return FieldDebug::Error { attr: copy_stream(&a.tokens) };
            },
        }
    }
    FieldDebug::Plain { name }
}

/// Whether `new` is `old` with a `std::fmt::Debug` bound added at the end of
/// a type parameter's bounds (lifetimes and constants stay as they are).
pub open spec fn param_with_debug_bound(old: GenericParamModel, new: GenericParamModel) -> bool {
    match old {
        GenericParamModel::Type { attrs, name, bounds } => new matches GenericParamModel::Type {
            attrs: new_attrs,
            name: new_name,
            bounds: new_bounds,
        } && new_attrs == attrs && new_name == name && new_bounds@ == bounds@.push(
            BoundModel::StdFmtDebug,
        ),
        _ => new == old,
    }
}

/// Whether `new` holds the parameters of `old`, in order, each type parameter
/// with a `std::fmt::Debug` bound added, and the same `where` clause.
pub open spec fn generics_with_debug_bounds(old: GenericsModel, new: GenericsModel) -> bool {
    &&& new.where_clause == old.where_clause
    &&& new.params@.len() == old.params@.len()
    &&& forall|i: int|
        0 <= i < old.params@.len() ==> param_with_debug_bound(
            #[trigger] old.params@[i],
            new.params@[i],
        )
}

/// Adds a `std::fmt::Debug` bound to every type parameter.
pub fn add_trait_bounds(generics: GenericsModel) -> (r: GenericsModel)
    ensures
        generics_with_debug_bounds(generics, r),
{
    let GenericsModel { params: mut rest, where_clause } = generics;
    let ghost old_params = rest@;
    let mut params: Vec<GenericParamModel> = Vec::new();
    while rest.len() > 0
        invariant
            old_params == generics.params@,
            params@.len() + rest@.len() == old_params.len(),
            rest@ == old_params.subrange(params@.len() as int, old_params.len() as int),
            forall|j: int|
                0 <= j < params@.len() ==> param_with_debug_bound(
                    #[trigger] old_params[j],
                    params@[j],
                ),
        decreases rest.len(),
    {
        let ghost k = params@.len() as int;
        let param = rest.remove(0);
        proof {
            assert(param == old_params[k]);
            assert(rest@ =~= old_params.subrange(k + 1, old_params.len() as int));
        }
        let extended = match param {
            GenericParamModel::Type { attrs, name, mut bounds } => {
                bounds.push(BoundModel::StdFmtDebug);
                GenericParamModel::Type { attrs, name, bounds }
            },
            other => other,
        };
        params.push(extended);
    }
    GenericsModel { params, where_clause }
}

/// Everything the generated `impl Debug` is made of.
#[derive(Debug, PartialEq, Eq)]
pub struct DebugPlan {
    /// The struct's name, also the name written by `debug_struct`.
    pub struct_name: String,
    /// The struct's generics with the added bounds.
    pub generics: GenericsModel,
    /// How each field is written, in the struct's order.
    pub fields: Vec<FieldDebug<String, Vec<Tok>>>,
}

/// Plans the `impl Debug` for a struct with named fields.
pub fn derive(input: DeriveInputModel) -> (r: DebugPlan)
    requires
        input.data is NamedStruct,
        input_puncts_valid(input),
    ensures
        r.struct_name@ == input.ident@,
        generics_with_debug_bounds(input.generics, r.generics),
        r.fields@.len() == named_fields(input).len(),
        forall|i: int|
            0 <= i < named_fields(input).len() ==> #[trigger] r.fields@[i]@ == spec_debug_field(
                named_fields(input)[i],
            ),
{
    let generics = add_trait_bounds(input.generics);
    let struct_name = input.ident;
    let fields = match &input.data {
        DataModel::NamedStruct(named) => named,
        DataModel::Other => vstd::pervasive::unreached(),
    };
    let mut field_info: Vec<FieldDebug<String, Vec<Tok>>> = Vec::new();
    let mut i: usize = 0;
    while i < fields.len()
        invariant
            fields@ == named_fields(input),
            input_puncts_valid(input),
            i <= fields.len(),
            field_info@.len() == i,
            forall|j: int| 0 <= j < i ==> #[trigger] field_info@[j]@ == spec_debug_field(fields@[j]),
        decreases fields.len() - i,
    {
        proof {
            assert(field_puncts_valid(named_fields(input)[i as int]));
        }
        field_info.push(analyze_fields(&fields[i]));
        i += 1;
    }
    DebugPlan { struct_name, generics, fields: field_info }
}


/// Whether `r` is the plan for `input`.
pub open spec fn debug_plan_of(input: DeriveInputModel, r: DebugPlan) -> bool {
    &&& r.struct_name@ == input.ident@
    &&& generics_with_debug_bounds(input.generics, r.generics)
    &&& r.fields@.len() == named_fields(input).len()
    &&& forall|i: int|
        0 <= i < named_fields(input).len() ==> #[trigger] r.fields@[i]@ == spec_debug_field(
            named_fields(input)[i],
        )
}

/// Why the `CustomDebug` derive produced no plan.
#[derive(Debug, PartialEq, Eq)]
pub enum DebugFailure {
    /// The input could not be read.
    Read(ReadError),
    /// The item is no struct with named fields.
    NotNamedStruct,
}

/// The `CustomDebug` derive, from the tokens of the item: reads the item with
/// syn and plans the `impl Debug`. Where the tokens do not read, or the item
/// is no struct with named fields, it says so.
pub fn derive_custom_debug(tokens: &Vec<Tok>) -> (r: Result<DebugPlan, DebugFailure>)
    requires
        puncts_valid(stream_view(tokens@)),
    ensures
        !derive_input_readable(stream_view(tokens@)) ==> r matches Err(DebugFailure::Read(_)),
        forall|m: DeriveInputModel|
            #[trigger] derive_input_of(stream_view(tokens@), m) ==> {
                &&& (r is Ok <==> m.data is NamedStruct)
                &&& (r matches Ok(p) ==> debug_plan_of(m, p))
            },
        match r {
            Err(DebugFailure::Read(ReadError::Syntax(msg))) => syn_derive_input(stream_view(tokens@)) == Err::<DeriveShape, Seq<char>>(msg@),
            Err(DebugFailure::Read(ReadError::Unreadable)) => syn_derive_input(stream_view(tokens@)) is Ok && !derive_input_readable(stream_view(tokens@)),
            _ => true,
        },
{
    let model = match read_derive_input(tokens) {
        Ok(m) => m,
        Err(e) => {
            return Err(DebugFailure::Read(e));
        },
    };
    let ghost tv = stream_view(tokens@);
    let ghost read = model;
    if let DataModel::Other = &model.data {
        proof {
            assert forall|m: DeriveInputModel| #[trigger] derive_input_of(tv, m) implies !(
            m.data is NamedStruct) by {
                lemma_derive_input_unique(tv, read, m);
            }
        }
        return Err(DebugFailure::NotNamedStruct);
    }
    let plan = derive(model);
    proof {
        assert forall|m: DeriveInputModel| #[trigger] derive_input_of(tv, m) implies m.data is NamedStruct
            && debug_plan_of(m, plan) by {
            lemma_derive_input_unique(tv, read, m);
            assert(named_fields(m) == named_fields(read));
            assert(m.generics.params@ == read.generics.params@);
        }
    }
    Ok(plan)
}


/// A field is written from its first attribute whose path starts with `debug`,
/// wherever that attribute stands among the others: `debug = "s"` writes the
/// field through `s`; a `path = "s"` form whose path does not start with
/// `debug` writes it plainly; any other form is an error for that attribute.
pub proof fn law_debug_field_from_first_debug_attr(f: FieldModel, i: int)
    requires
        0 <= i < f.attrs@.len(),
        f.attrs@[i].path_first@ == "debug"@,
        forall|j: int| 0 <= j < i ==> f.attrs@[j].path_first@ != "debug"@,
    ensures
        match syn_parse_meta(stream_view(f.attrs@[i].tokens@)) {
            Some(MetaModel::NameValueStr { path_first, value }) => if path_first@ == "debug"@ {
                spec_debug_field(f) == (FieldDebug::<Seq<char>, Seq<TokV>>::Formatted {
                    name: f.ident@,
                    fmt: value@,
                })
            } else {
                spec_debug_field(f) == (FieldDebug::<Seq<char>, Seq<TokV>>::Plain { name: f.ident@ })
            },
            _ => spec_debug_field(f) == (FieldDebug::<Seq<char>, Seq<TokV>>::Error {
                attr: stream_view(f.attrs@[i].tokens@),
            }),
        },
{
    lemma_first_attr_at(f.attrs@, "debug"@, i);
}

/// A field without an attribute whose path starts with `debug` is written plainly.
pub proof fn law_debug_field_plain_without_attr(f: FieldModel)
    requires
        forall|j: int| 0 <= j < f.attrs@.len() ==> f.attrs@[j].path_first@ != "debug"@,
    ensures
        spec_debug_field(f) == (FieldDebug::<Seq<char>, Seq<TokV>>::Plain { name: f.ident@ }),
{
    lemma_no_attr(f.attrs@, "debug"@);
}

/// Attributes with other paths (doc comments, `allow`, ...) put before a
/// field's attributes change nothing in how the field is written.
pub proof fn law_debug_field_ignores_other_attrs(f: FieldModel, g: FieldModel)
    requires
        g.ident == f.ident,
        g.attrs@.len() >= f.attrs@.len(),
        g.attrs@.subrange(g.attrs@.len() - f.attrs@.len(), g.attrs@.len() as int) == f.attrs@,
        forall|j: int|
            0 <= j < g.attrs@.len() - f.attrs@.len() ==> g.attrs@[j].path_first@ != "debug"@,
    ensures
        spec_debug_field(g) == spec_debug_field(f),
{
    lemma_prefix_attrs(f.attrs@, g.attrs@, "debug"@);
}

} // verus!
