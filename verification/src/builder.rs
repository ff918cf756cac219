//! The `Builder` derive.
//!
//! For a struct `Command` with named fields it plans a `CommandBuilder` struct,
//! a `Command::builder()` constructor that starts every field at `None`, one
//! setter per field (or an "each" setter that pushes one item, for a `Vec`
//! field marked `#[builder(each = "name")]`), and a `build` method that lists
//! the fields not yet set or assembles the struct.
use vstd::prelude::*;
use crate::model::{
    find_attr, first_attr, has_attr, lemma_first_attr_at, lemma_no_attr, lemma_prefix_attrs, named_fields, DataModel, DeriveInputModel, FieldModel,
    GenericArg, MetaItem, MetaModel, PathArgs, PathSegment, TypeModel,
};
use crate::syntax::{
    arg_puncts_valid, derive_input_of, derive_input_readable, field_puncts_valid,
    input_puncts_valid, lemma_derive_input_unique, parse_meta, parse_meta_item,
    path_args_puncts_valid, read_derive_input, segments_puncts_valid, syn_derive_input,
    syn_meta_item, syn_parse_meta, type_model, type_path, DeriveShape, ReadError,
};
use crate::tokens::{copy_stream, puncts_valid, stream_view, Tok, TokV};

verus! {

/// The tokens of the type inside `Option<...>`: the first generic argument of
/// the last path segment, where that segment is `Option` with angle-bracketed
/// arguments and the first argument is a type.
pub open spec fn spec_unwrapped_option_type(ty: TypeModel) -> Option<Seq<TokV>> {
    match ty.path {
        Some(segs) => if segs@.len() > 0 && segs@.last().ident@ == "Option"@ {
            match segs@.last().args {
                PathArgs::AngleBracketed(args) => if args@.len() > 0 {
                    match args@[0] {
                        GenericArg::Type(inner) => Some(stream_view(inner@)),
                        GenericArg::Other => None,
                    }
                } else {
                    None
                },
                _ => None,
            }
        } else {
            None
        },
        None => None,
    }
}

/// Where `is_vec` is defined: a path type has a last segment, and a `Vec`
/// segment with angle brackets has an argument in them.
pub open spec fn is_vec_defined(ty: TypeModel) -> bool {
    path_is_vec_defined(ty.path)
}

/// `is_vec_defined`, for the segments of a type.
pub open spec fn path_is_vec_defined(path: Option<Vec<PathSegment>>) -> bool {
    match path {
        Some(segs) => segs@.len() > 0 && (segs@.last().ident@ == "Vec"@ ==> match segs@.last().args {
            PathArgs::AngleBracketed(args) => args@.len() > 0,
            _ => true,
        }),
        None => true,
    }
}

/// The tokens of the item type of a `Vec`: the last generic argument of the
/// last path segment, where that segment is `Vec` with angle-bracketed
/// arguments and the last argument is a type.
pub open spec fn spec_is_vec(ty: TypeModel) -> Option<Seq<TokV>> {
    path_vec_item(ty.path)
}

/// `spec_is_vec`, for the segments of a type.
pub open spec fn path_vec_item(path: Option<Vec<PathSegment>>) -> Option<Seq<TokV>> {
    match path {
        Some(segs) => if segs@.last().ident@ == "Vec"@ {
            match segs@.last().args {
                PathArgs::AngleBracketed(args) => match args@.last() {
                    GenericArg::Type(inner) => Some(stream_view(inner@)),
                    GenericArg::Other => None,
                },
                _ => None,
            }
        } else {
            None
        },
        None => None,
    }
}

/// Returns the tokens of the type inside `Option<...>`, if `ty` is written as an `Option`.
pub fn unwrapped_option_type<'a>(ty: &'a TypeModel) -> (r: Option<&'a Vec<Tok>>)
    ensures
        match spec_unwrapped_option_type(*ty) {
            Some(inner) => r matches Some(x) && stream_view(x@) == inner,
            None => r is None,
        },
        r matches Some(x) ==> (ty.path matches Some(segs) && segments_puncts_valid(segs@)
            ==> puncts_valid(stream_view(x@))),
{
    if let Some(segments) = &ty.path {
        if segments.len() > 0 {
            let seg = &segments[segments.len() - 1];
            let option_word: String = "Option".to_owned();
            if seg.ident == option_word {
                if let PathArgs::AngleBracketed(args) = &seg.args {
                    if args.len() > 0 {
                        if let GenericArg::Type(inner) = &args[0] {
                            proof {
                                if segments_puncts_valid(segments@) {
                                    assert(path_args_puncts_valid(segments@[segments@.len() - 1].args));
                                    assert(arg_puncts_valid(args@[0]));
                                }
                            }
                            return Some(inner);
                        }
                    }
                }
            }
        }
    }
    None
}

/// Returns the tokens of the item type of `ty`, if `ty` is written as a `Vec`.
pub fn is_vec(ty: &TypeModel) -> (r: Option<&Vec<Tok>>)
    requires
        is_vec_defined(*ty),
    ensures
        match spec_is_vec(*ty) {
            Some(inner) => r matches Some(x) && stream_view(x@) == inner,
            None => r is None,
        },
{
    if let Some(segments) = &ty.path {
        let last = &segments[segments.len() - 1];
        let vec_word: String = "Vec".to_owned();
        if last.ident == vec_word {
            if let PathArgs::AngleBracketed(args) = &last.args {
                if let GenericArg::Type(inner) = &args[args.len() - 1] {
                    return Some(inner);
                }
            }
        }
    }
    None
}

/// The setter methods planned for one field. `S` is the type of names and `T`
/// the type of a type's tokens: `String` and `Vec<Tok>` in code, `Seq<char>`
/// and `Seq<TokV>` in specifications.
#[derive(Debug, PartialEq, Eq)]
pub enum SetterPlan<S, T> {
    /// `fn field(&mut self, field: param_ty) -> &mut Self`, which sets the field to `Some(field)`.
    Whole { field: S, param_ty: T },
    /// `fn each(&mut self, each: item_ty) -> &mut Self`, which pushes `each` onto the field.
    Each { field: S, each: S, item_ty: T },
    /// The "each" setter followed by the whole-field setter.
    EachAndWhole { field: S, each: S, item_ty: T, param_ty: T },
}

impl View for SetterPlan<String, Vec<Tok>> {
    type V = SetterPlan<Seq<char>, Seq<TokV>>;

    open spec fn view(&self) -> SetterPlan<Seq<char>, Seq<TokV>> {
        match self {
            SetterPlan::Whole { field, param_ty } => SetterPlan::Whole {
                field: field@,
                param_ty: stream_view(param_ty@),
            },
            SetterPlan::Each { field, each, item_ty } => SetterPlan::Each {
                field: field@,
                each: each@,
                item_ty: stream_view(item_ty@),
            },
            SetterPlan::EachAndWhole { field, each, item_ty, param_ty } => SetterPlan::EachAndWhole {
                field: field@,
                each: each@,
                item_ty: stream_view(item_ty@),
                param_ty: stream_view(param_ty@),
            },
        }
    }
}

/// The value of an optional setter plan.
pub open spec fn setter_view(s: Option<SetterPlan<String, Vec<Tok>>>) -> Option<
    SetterPlan<Seq<char>, Seq<TokV>>,
> {
    match s {
        Some(p) => Some(p@),
        None => None,
    }
}

/// The value of optional tokens.
pub open spec fn tokens_view(s: Option<Vec<Tok>>) -> Option<Seq<TokV>> {
    match s {
        Some(t) => Some(stream_view(t@)),
        None => None,
    }
}

/// What the derive learns of one field.
#[derive(Debug, PartialEq, Eq)]
pub struct FieldBuilderMetadata<S, T> {
    /// The field's name.
    pub name: S,
    /// The field's type.
    pub ty: T,
    /// Whether the field is written as an `Option`.
    pub optional: bool,
    /// The type inside the `Option` for an optional field, else the field's type.
    pub inner_type: T,
    /// The setters to generate; `None` where the field's builder attribute is malformed.
    pub set_field_code: Option<SetterPlan<S, T>>,
    /// Where the field's builder attribute is malformed: the type that the error points at.
    pub error: Option<T>,
}

impl View for FieldBuilderMetadata<String, Vec<Tok>> {
    type V = FieldBuilderMetadata<Seq<char>, Seq<TokV>>;

    open spec fn view(&self) -> FieldBuilderMetadata<Seq<char>, Seq<TokV>> {
        FieldBuilderMetadata {
            name: self.name@,
            ty: stream_view(self.ty@),
            optional: self.optional,
            inner_type: stream_view(self.inner_type@),
            set_field_code: setter_view(self.set_field_code),
            error: tokens_view(self.error),
        }
    }
}

/// The message of the error for a malformed builder attribute.
pub fn builder_attr_error_message() -> (r: &'static str)
    ensures
        r@ == "expected `builder(each = \"...\")`"@,
{
    "expected `builder(each = \"...\")`"
}

/// The tokens of the type that the setters of a field take: the type inside
/// the `Option` for an optional field, else the field's type.
pub open spec fn setter_type_tokens(f: FieldModel) -> Seq<TokV> {
    match spec_unwrapped_option_type(f.ty) {
        Some(inner) => inner,
        None => stream_view(f.ty.tokens@),
    }
}

/// The segments of that type, as syn reads its tokens (tokens that do not
/// read count as no path).
pub open spec fn setter_type_path(f: FieldModel) -> Option<Vec<PathSegment>> {
    match spec_unwrapped_option_type(f.ty) {
        Some(inner) => type_path(inner),
        None => f.ty.path,
    }
}

/// The contents of the first `builder` attribute, as `parse_meta` reads them.
pub open spec fn builder_meta(f: FieldModel) -> Option<MetaModel> {
    syn_parse_meta(stream_view(f.attrs@[first_attr(f.attrs@, "builder"@)].tokens@))
}

/// Where `analyze_fields` is defined: a `builder` attribute in list form holds
/// exactly one item, and where that item is `each = "..."` the setter type has
/// the shape `is_vec` reads.
pub open spec fn analyze_fields_defined(f: FieldModel) -> bool {
    has_attr(f.attrs@, "builder"@) ==> match builder_meta(f) {
        Some(MetaModel::List(items)) => items@.len() == 1 && match syn_meta_item(
            stream_view(items@[0]@),
        ) {
            Some(MetaItem::NameValueStr { path_first, .. }) => path_first@ == "each"@
                ==> path_is_vec_defined(setter_type_path(f)),
            _ => true,
        },
        _ => true,
    }
}

/// What `analyze_fields` learns of a field.
pub open spec fn spec_analyze_fields(f: FieldModel) -> FieldBuilderMetadata<Seq<char>, Seq<TokV>> {
    let optional = spec_unwrapped_option_type(f.ty) is Some;
    let ty = setter_type_tokens(f);
    let own = stream_view(f.ty.tokens@);
    let plan = |set: Option<SetterPlan<Seq<char>, Seq<TokV>>>, error: Option<Seq<TokV>>|
        FieldBuilderMetadata {
            name: f.ident@,
            ty: own,
            optional,
            inner_type: ty,
            set_field_code: set,
            error,
        };
    let malformed = plan(None, Some(own));
    if !has_attr(f.attrs@, "builder"@) {
        plan(Some(SetterPlan::Whole { field: f.ident@, param_ty: ty }), None)
    } else {
        match builder_meta(f) {
            Some(MetaModel::List(items)) => match syn_meta_item(stream_view(items@[0]@)) {
                Some(MetaItem::NameValueStr { path_first, value }) => if path_first@ == "each"@ {
                    match path_vec_item(setter_type_path(f)) {
                        None => malformed,
                        Some(item) => if f.ident@ == value@ {
                            plan(
                                Some(SetterPlan::Each { field: f.ident@, each: value@, item_ty: item }),
                                None,
                            )
                        } else {
                            plan(
                                Some(
                                    SetterPlan::EachAndWhole {
                                        field: f.ident@,
                                        each: value@,
                                        item_ty: item,
                                        param_ty: ty,
                                    },
                                ),
                                None,
                            )
                        },
                    }
                } else {
                    malformed
                },
                _ => malformed,
            },
            _ => malformed,
        }
    }
}

/// The type that the setters of a field take, read from its tokens where the
/// field is an `Option`.
fn setter_type(f: &FieldModel) -> (r: Option<TypeModel>)
    requires
        field_puncts_valid(*f),
    ensures
        match r {
            Some(m) => spec_unwrapped_option_type(f.ty) is Some && stream_view(m.tokens@)
                == setter_type_tokens(*f) && m.path == setter_type_path(*f),
            None => spec_unwrapped_option_type(f.ty) is None,
        },
{
    match unwrapped_option_type(&f.ty) {
        Some(inner) => Some(type_model(copy_stream(inner))),
        None => None,
    }
}

/// Works out the setters of one field from its type and its first `builder`
/// attribute: without one, a setter for the whole field; with
/// `#[builder(each = "name")]` on a `Vec` field, a setter that pushes one item
/// (alone where it has the field's name, else beside the whole-field setter);
/// with anything else, no setter and an error pointing at the field's type.
pub fn analyze_fields(f: &FieldModel) -> (r: Option<FieldBuilderMetadata<String, Vec<Tok>>>)
    requires
        analyze_fields_defined(*f),
        field_puncts_valid(*f),
    ensures
        r matches Some(m) && m@ == spec_analyze_fields(*f),
{
    let name = f.ident.clone();
    let unwrapped = setter_type(f);
    let optional = unwrapped.is_some();
    let ty: &TypeModel = match &unwrapped {
        Some(updated) => updated,
        None => &f.ty,
    };
    let full_set_function = SetterPlan::Whole { field: name.clone(), param_ty: copy_stream(&ty.tokens) };
    let builder_word: String = "builder".to_owned();
    let found = find_attr(&f.attrs, &builder_word);
    let mut field_info = FieldBuilderMetadata {
        name: name.clone(),
        ty: copy_stream(&f.ty.tokens),
        optional,
        inner_type: copy_stream(&ty.tokens),
        set_field_code: None,
        error: None,
    };
    if let Some(index) = found {
        let a = &f.attrs[index];
        match parse_meta(&a.tokens) {
            Some(MetaModel::List(nested)) => {
                match parse_meta_item(&nested[0]) {
                    Some(MetaItem::NameValueStr { path_first, value }) => {
                        let each_word: String = "each".to_owned();
                        if path_first == each_word {
                            let inner_ty = match is_vec(ty) {
                                Some(t) => t,
                                None => {
                                    field_info.error = Some(copy_stream(&f.ty.tokens));
                                    return Some(field_info);
                                },
                            };
                            if name == value {
                                field_info.set_field_code = Some(
                                    SetterPlan::Each {
                                        field: name.clone(),
                                        each: value.clone(),
                                        item_ty: copy_stream(inner_ty),
                                    },
                                );
                                return Some(field_info);
                            } else {
                                field_info.set_field_code = Some(
                                    SetterPlan::EachAndWhole {
                                        field: name.clone(),
                                        each: value.clone(),
                                        item_ty: copy_stream(inner_ty),
                                        param_ty: copy_stream(&ty.tokens),
                                    },
                                );
                                return Some(field_info);
                            }
                        } else {
                            field_info.error = Some(copy_stream(&f.ty.tokens));
                            return Some(field_info);
                        }
                    },
                    _ => {
                        field_info.error = Some(copy_stream(&f.ty.tokens));
                        return Some(field_info);
                    },
                }
            },
            _ => {
                field_info.error = Some(copy_stream(&f.ty.tokens));
                return Some(field_info);
            },
        }
    }
    field_info.set_field_code = Some(full_set_function);
    Some(field_info)
}

/// How a field is declared in the builder struct.
#[derive(Debug, PartialEq, Eq)]
pub enum FieldDecl<S, T> {
    /// `name: std::option::Option<ty>`.
    Optional { name: S, ty: T },
    /// `name: ty`.
    Plain { name: S, ty: T },
}

impl View for FieldDecl<String, Vec<Tok>> {
    type V = FieldDecl<Seq<char>, Seq<TokV>>;

    open spec fn view(&self) -> FieldDecl<Seq<char>, Seq<TokV>> {
        match self {
            FieldDecl::Optional { name, ty } => FieldDecl::Optional {
                name: name@,
                ty: stream_view(ty@),
            },
            FieldDecl::Plain { name, ty } => FieldDecl::Plain { name: name@, ty: stream_view(ty@) },
        }
    }
}

/// What `build` checks of a field before it assembles the struct.
#[derive(Debug, PartialEq, Eq)]
pub enum UnsetCheck<S> {
    /// The field's name is listed as missing while the builder holds `None` for it.
    Required { name: S },
    /// Nothing is checked.
    Skipped,
}

impl View for UnsetCheck<String> {
    type V = UnsetCheck<Seq<char>>;

    open spec fn view(&self) -> UnsetCheck<Seq<char>> {
        match self {
            UnsetCheck::Required { name } => UnsetCheck::Required { name: name@ },
            UnsetCheck::Skipped => UnsetCheck::Skipped,
        }
    }
}

/// How `build` fills a field of the struct.
#[derive(Debug, PartialEq, Eq)]
pub enum OutputField<S> {
    /// `name: self.name.clone()`.
    Cloned { name: S },
    /// `name: self.name.clone().unwrap()`.
    Unwrapped { name: S },
}

impl View for OutputField<String> {
    type V = OutputField<Seq<char>>;

    open spec fn view(&self) -> OutputField<Seq<char>> {
        match self {
            OutputField::Cloned { name } => OutputField::Cloned { name: name@ },
            OutputField::Unwrapped { name } => OutputField::Unwrapped { name: name@ },
        }
    }
}

/// Everything the generated code is made of, field by field in the struct's order.
#[derive(Debug, PartialEq, Eq)]
pub struct BuilderPlan {
    /// The struct's name.
    pub struct_name: String,
    /// The builder struct's name.
    pub builder_name: String,
    /// The builder struct's fields.
    pub declarations: Vec<FieldDecl<String, Vec<Tok>>>,
    /// The fields that `builder()` starts at `None`.
    pub init_names: Vec<String>,
    /// The setters of each field.
    pub setters: Vec<Option<SetterPlan<String, Vec<Tok>>>>,
    /// The checks of `build`.
    pub unset_checks: Vec<UnsetCheck<String>>,
    /// The fields that `build` fills.
    pub output_fields: Vec<OutputField<String>>,
}

/// A name without its `r#` prefix, as `format_ident!` writes an identifier.
pub open spec fn unraw(s: Seq<char>) -> Seq<char> {
    if s.len() >= 2 && s[0] == 'r' && s[1] == '#' {
        s.subrange(2, s.len() as int)
    } else {
        s
    }
}

/// The builder's name for a struct: the struct's name followed by `Builder`.
pub open spec fn spec_builder_name(name: Seq<char>) -> Seq<char> {
    unraw(name) + "Builder"@
}

/// How the builder struct declares a field.
pub open spec fn spec_field_decl(m: FieldBuilderMetadata<Seq<char>, Seq<TokV>>) -> FieldDecl<
    Seq<char>,
    Seq<TokV>,
> {
    if m.optional {
        FieldDecl::Optional { name: m.name, ty: m.inner_type }
    } else {
        FieldDecl::Plain { name: m.name, ty: m.inner_type }
    }
}

/// What `build` checks of a field.
pub open spec fn spec_unset_check(m: FieldBuilderMetadata<Seq<char>, Seq<TokV>>) -> UnsetCheck<Seq<char>> {
    if m.optional {
        UnsetCheck::Skipped
    } else {
        UnsetCheck::Required { name: m.name }
    }
}

/// How `build` fills a field.
pub open spec fn spec_output_field(f: FieldModel) -> OutputField<Seq<char>> {
    if spec_unwrapped_option_type(f.ty) is Some {
        OutputField::Cloned { name: f.ident@ }
    } else {
        OutputField::Unwrapped { name: f.ident@ }
    }
}

/// Where the derive is defined: a struct with named fields, each of which
/// `analyze_fields` can read.
pub open spec fn derive_defined(input: DeriveInputModel) -> bool {
    &&& input.data is NamedStruct
    &&& forall|i: int|
        0 <= i < named_fields(input).len() ==> analyze_fields_defined(
            #[trigger] named_fields(input)[i],
        )
}

/// Whether `r` is the plan for `input`: every field planned, in order.
pub open spec fn builder_plan_of(input: DeriveInputModel, r: BuilderPlan) -> bool {
    &&& r.struct_name@ == input.ident@
    &&& r.builder_name@ == spec_builder_name(input.ident@)
    &&& r.declarations@.len() == named_fields(input).len()
    &&& r.init_names@.len() == named_fields(input).len()
    &&& r.setters@.len() == named_fields(input).len()
    &&& r.unset_checks@.len() == named_fields(input).len()
    &&& r.output_fields@.len() == named_fields(input).len()
    &&& forall|i: int|
        0 <= i < named_fields(input).len() ==> {
            let m = spec_analyze_fields(#[trigger] named_fields(input)[i]);
            &&& r.declarations@[i]@ == spec_field_decl(m)
            &&& r.init_names@[i]@ == named_fields(input)[i].ident@
            &&& setter_view(r.setters@[i]) == m.set_field_code
            &&& r.unset_checks@[i]@ == spec_unset_check(m)
            &&& r.output_fields@[i]@ == spec_output_field(named_fields(input)[i])
        }
}

/// Writes the builder's name: the struct's name (without `r#`) followed by `Builder`.
fn builder_ident_text(name: &String) -> (r: String)
    ensures
        r@ == spec_builder_name(name@),
{
    let s = name.as_str();
    let len = s.unicode_len();
    let base: &str = if len >= 2 && s.get_char(0) == 'r' && s.get_char(1) == '#' {
        s.substring_char(2, len)
    } else {
        s
    };
    let mut out = base.to_owned();
    out.append("Builder");
    out
}

/// Plans the builder struct, its constructor, its setters and its `build`
/// method, field by field.
pub fn derive(input: &DeriveInputModel) -> (r: BuilderPlan)
    requires
        derive_defined(*input),
        input_puncts_valid(*input),
    ensures
        builder_plan_of(*input, r),
{
    let struct_name = input.ident.clone();
    let builder_name = builder_ident_text(&input.ident);
    let fields = match &input.data {
        DataModel::NamedStruct(named) => named,
        DataModel::Other => vstd::pervasive::unreached(),
    };
    let mut declarations: Vec<FieldDecl<String, Vec<Tok>>> = Vec::new();
    let mut init_names: Vec<String> = Vec::new();
    let mut setters: Vec<Option<SetterPlan<String, Vec<Tok>>>> = Vec::new();
    let mut unset_checks: Vec<UnsetCheck<String>> = Vec::new();
    let mut output_fields: Vec<OutputField<String>> = Vec::new();
    let mut i: usize = 0;
    while i < fields.len()
        invariant
            fields@ == named_fields(*input),
            derive_defined(*input),
            input_puncts_valid(*input),
            i <= fields.len(),
            declarations@.len() == i,
            init_names@.len() == i,
            setters@.len() == i,
            unset_checks@.len() == i,
            output_fields@.len() == i,
            forall|j: int|
                0 <= j < i ==> {
                    let m = spec_analyze_fields(#[trigger] fields@[j]);
                    &&& declarations@[j]@ == spec_field_decl(m)
                    &&& init_names@[j]@ == fields@[j].ident@
                    &&& setter_view(setters@[j]) == m.set_field_code
                    &&& unset_checks@[j]@ == spec_unset_check(m)
                    &&& output_fields@[j]@ == spec_output_field(fields@[j])
                },
        decreases fields.len() - i,
    {
        let f = &fields[i];
        proof {
            assert(analyze_fields_defined(named_fields(*input)[i as int]));
            assert(field_puncts_valid(named_fields(*input)[i as int]));
        }
        let meta = analyze_fields(f).unwrap();
        let decl = if meta.optional {
            FieldDecl::Optional { name: meta.name.clone(), ty: copy_stream(&meta.inner_type) }
        } else {
            FieldDecl::Plain { name: meta.name.clone(), ty: copy_stream(&meta.inner_type) }
        };
        let check = if !meta.optional {
            UnsetCheck::Required { name: meta.name.clone() }
        } else {
            UnsetCheck::Skipped
        };
        let output = match unwrapped_option_type(&f.ty) {
            Some(_) => OutputField::Cloned { name: f.ident.clone() },
            None => OutputField::Unwrapped { name: f.ident.clone() },
        };
        declarations.push(decl);
        init_names.push(meta.name.clone());
        unset_checks.push(check);
        output_fields.push(output);
        setters.push(meta.set_field_code);
        i += 1;
    }
    BuilderPlan {
        struct_name,
        builder_name,
        declarations,
        init_names,
        setters,
        unset_checks,
        output_fields,
    }
}

/// Where the derive cannot run: the inputs on which `derive` is not defined.
#[derive(Debug, Clone, Copy, PartialEq, Eq, Structural)]
pub enum BuilderPanic {
    /// The item is no struct with named fields.
    NotNamedStruct,
    /// A field's `builder` attribute in list form holds other than exactly one item.
    NotOneBuilderOption,
    /// A field asks for an "each" setter, and its setter type is a path type
    /// without segments or a `Vec<>` without arguments.
    MissingTypeArgument,
}

/// Why `analyze_fields` cannot read a field, if it cannot.
pub open spec fn spec_field_panic(f: FieldModel) -> Option<BuilderPanic> {
    if has_attr(f.attrs@, "builder"@) {
        match builder_meta(f) {
            Some(MetaModel::List(items)) => if items@.len() != 1 {
                Some(BuilderPanic::NotOneBuilderOption)
            } else {
                match syn_meta_item(stream_view(items@[0]@)) {
                    Some(MetaItem::NameValueStr { path_first, .. }) => if path_first@ == "each"@
                        && !path_is_vec_defined(setter_type_path(f)) {
                        Some(BuilderPanic::MissingTypeArgument)
                    } else {
                        None
                    },
                    _ => None,
                }
            },
            _ => None,
        }
    } else {
        None
    }
}

/// Whether `ty` has the shape that `is_vec` reads.
fn check_is_vec_defined(ty: &TypeModel) -> (r: bool)
    ensures
        r == is_vec_defined(*ty),
{
    match &ty.path {
        Some(segments) => {
            if segments.len() == 0 {
                return false;
            }
            let last = &segments[segments.len() - 1];
            let vec_word: String = "Vec".to_owned();
            if last.ident == vec_word {
                match &last.args {
                    PathArgs::AngleBracketed(args) => args.len() > 0,
                    _ => true,
                }
            } else {
                true
            }
        },
        None => true,
    }
}

/// Tells whether `analyze_fields` can read a field, and why not.
pub fn field_panic(f: &FieldModel) -> (r: Option<BuilderPanic>)
    requires
        field_puncts_valid(*f),
    ensures
        r == spec_field_panic(*f),
        r is None <==> analyze_fields_defined(*f),
{
    let builder_word: String = "builder".to_owned();
    if let Some(index) = find_attr(&f.attrs, &builder_word) {
        if let Some(MetaModel::List(items)) = parse_meta(&f.attrs[index].tokens) {
            if items.len() != 1 {
                return Some(BuilderPanic::NotOneBuilderOption);
            }
            if let Some(MetaItem::NameValueStr { path_first, .. }) = parse_meta_item(&items[0]) {
                let each_word: String = "each".to_owned();
                if path_first == each_word {
                    let unwrapped = setter_type(f);
                    let ty: &TypeModel = match &unwrapped {
                        Some(inner) => inner,
                        None => &f.ty,
                    };
                    if !check_is_vec_defined(ty) {
                        return Some(BuilderPanic::MissingTypeArgument);
                    }
                }
            }
        }
    }
    None
}

/// Tells whether `derive` can run on an input; where it cannot, says why,
/// for the first field at fault.
pub fn derive_panic(input: &DeriveInputModel) -> (r: Option<BuilderPanic>)
    requires
        input_puncts_valid(*input),
    ensures
        r is None <==> derive_defined(*input),
        (r == Some(BuilderPanic::NotNamedStruct)) <==> (input.data is Other),
        match r {
            Some(p) => p != BuilderPanic::NotNamedStruct ==> exists|i: int|
                0 <= i < named_fields(*input).len() && spec_field_panic(
                    #[trigger] named_fields(*input)[i],
                ) == Some(p) && forall|j: int|
                    0 <= j < i ==> spec_field_panic(#[trigger] named_fields(*input)[j]) is None,
            None => true,
        },
{
    let fields = match &input.data {
        DataModel::NamedStruct(named) => named,
        DataModel::Other => {
            return Some(BuilderPanic::NotNamedStruct);
        },
    };
    let mut i: usize = 0;
    while i < fields.len()
        invariant
            fields@ == named_fields(*input),
            input.data is NamedStruct,
            input_puncts_valid(*input),
            i <= fields.len(),
            forall|j: int| 0 <= j < i ==> spec_field_panic(#[trigger] fields@[j]) is None,
            forall|j: int| 0 <= j < i ==> analyze_fields_defined(#[trigger] fields@[j]),
        decreases fields.len() - i,
    {
        proof {
            assert(field_puncts_valid(named_fields(*input)[i as int]));
        }
        let p = field_panic(&fields[i]);
        if p.is_some() {
            proof {
                assert(!analyze_fields_defined(named_fields(*input)[i as int]));
            }
            return p;
        }
        i += 1;
    }
    None
}

/// Why the `Builder` derive produced no plan.
#[derive(Debug, PartialEq, Eq)]
pub enum BuilderFailure {
    /// The input could not be read.
    Read(ReadError),
    /// The input was read, and the derive cannot run on it.
    Panic(BuilderPanic),
}

/// The `Builder` derive, from the tokens of the item: reads the item with syn
/// and plans the builder. Where the tokens do not read, or the derive cannot
/// run on what was read, it says so.
pub fn derive_builder(tokens: &Vec<Tok>) -> (r: Result<BuilderPlan, BuilderFailure>)
    requires
        puncts_valid(stream_view(tokens@)),
    ensures
        !derive_input_readable(stream_view(tokens@)) ==> r is Err,
        forall|m: DeriveInputModel|
            #[trigger] derive_input_of(stream_view(tokens@), m) ==> {
                &&& (r is Ok <==> derive_defined(m))
                &&& (r matches Ok(p) ==> builder_plan_of(m, p))
                &&& (r matches Err(BuilderFailure::Panic(k)) ==> derive_panic_of(m, k))
            },
        match r {
            Err(BuilderFailure::Read(ReadError::Syntax(msg))) => syn_derive_input(stream_view(tokens@)) == Err::<DeriveShape, Seq<char>>(msg@),
            Err(BuilderFailure::Read(ReadError::Unreadable)) => syn_derive_input(stream_view(tokens@)) is Ok && !derive_input_readable(stream_view(tokens@)),
            _ => true,
        },
{
    let model = match read_derive_input(tokens) {
        Ok(m) => m,
        Err(e) => {
            return Err(BuilderFailure::Read(e));
        },
    };
    let ghost tv = stream_view(tokens@);
    if let Some(p) = derive_panic(&model) {
        proof {
            assert forall|m: DeriveInputModel| #[trigger] derive_input_of(tv, m) implies !derive_defined(
                m,
            ) && derive_panic_of(m, p) by {
                lemma_derive_input_unique(tv, model, m);
                assert(named_fields(m) == named_fields(model));
            }
        }
        return Err(BuilderFailure::Panic(p));
    }
    let plan = derive(&model);
    proof {
        assert forall|m: DeriveInputModel| #[trigger] derive_input_of(tv, m) implies derive_defined(m)
            && builder_plan_of(m, plan) by {
            lemma_derive_input_unique(tv, model, m);
            assert(named_fields(m) == named_fields(model));
        }
    }
    Ok(plan)
}

/// Whether `k` is what `derive_panic` reports of `input`.
pub open spec fn derive_panic_of(input: DeriveInputModel, k: BuilderPanic) -> bool {
    &&& (k == BuilderPanic::NotNamedStruct) <==> (input.data is Other)
    &&& k != BuilderPanic::NotNamedStruct ==> exists|i: int|
        0 <= i < named_fields(input).len() && spec_field_panic(#[trigger] named_fields(input)[i])
            == Some(k) && forall|j: int|
            0 <= j < i ==> spec_field_panic(#[trigger] named_fields(input)[j]) is None
}

/// `build` unwraps exactly the fields it checks for `None` first: a field's
/// check is `Required` if and only if the field is filled with `unwrap`.
pub proof fn law_build_unwraps_only_checked_fields(f: FieldModel)
    ensures
        (spec_unset_check(spec_analyze_fields(f)) is Required) <==> (
        spec_output_field(f) is Unwrapped),
{
}

/// A field counts as optional exactly when its type is written `Option<T>`,
/// and its setters then take `T`.
pub proof fn law_optional_iff_option(f: FieldModel)
    ensures
        spec_analyze_fields(f).optional <==> spec_unwrapped_option_type(f.ty) is Some,
        spec_analyze_fields(f).optional ==> spec_analyze_fields(f).inner_type
            == spec_unwrapped_option_type(f.ty)->0,
        !spec_analyze_fields(f).optional ==> spec_analyze_fields(f).inner_type == stream_view(f.ty.tokens@),
{
}

/// An "each" setter is planned only for a field whose setter type is a `Vec`,
/// and it takes the `Vec`'s item type; every plan names the field it sets.
pub proof fn law_each_setter_only_for_vec(f: FieldModel)
    ensures
        match spec_analyze_fields(f).set_field_code {
            Some(SetterPlan::Each { field, item_ty, .. }) => {
                &&& field == f.ident@
                &&& path_vec_item(setter_type_path(f)) == Some(item_ty)
            },
            Some(SetterPlan::EachAndWhole { field, item_ty, param_ty, .. }) => {
                &&& field == f.ident@
                &&& param_ty == setter_type_tokens(f)
                &&& path_vec_item(setter_type_path(f)) == Some(item_ty)
            },
            Some(SetterPlan::Whole { field, param_ty }) => {
                &&& field == f.ident@
                &&& param_ty == setter_type_tokens(f)
            },
            None => true,
        },
{
}

/// A field is left without setters exactly when an error is recorded for it,
/// and the error points at the field's type.
pub proof fn law_no_setter_iff_error(f: FieldModel)
    ensures
        (spec_analyze_fields(f).set_field_code is None) <==> (spec_analyze_fields(f).error
            is Some),
        spec_analyze_fields(f).error matches Some(t) ==> t == stream_view(f.ty.tokens@),
{
}


/// A field with no attribute whose path starts with `builder` gets exactly the
/// setter for the whole field, taking the type inside the `Option` for an
/// optional field and the field's own type otherwise, and no error.
pub proof fn law_no_builder_attr_whole_setter(f: FieldModel)
    requires
        forall|j: int| 0 <= j < f.attrs@.len() ==> f.attrs@[j].path_first@ != "builder"@,
    ensures
        spec_analyze_fields(f).set_field_code == Some(
            (SetterPlan::<Seq<char>, Seq<TokV>>::Whole {
                field: f.ident@,
                param_ty: match spec_unwrapped_option_type(f.ty) {
                    Some(inner) => inner,
                    None => stream_view(f.ty.tokens@),
                },
            }),
        ),
        spec_analyze_fields(f).error is None,
        spec_analyze_fields(f).name == f.ident@,
        spec_analyze_fields(f).ty == stream_view(f.ty.tokens@),
{
    lemma_no_attr(f.attrs@, "builder"@);
}

/// A setter that pushes one item is planned only from a `builder` attribute
/// whose path starts with `builder` and whose single item reads
/// `each = "name"`, and it is named after that string.
pub proof fn law_each_setter_only_from_attribute(f: FieldModel)
    requires
        analyze_fields_defined(f),
    ensures
        match spec_analyze_fields(f).set_field_code {
            Some(SetterPlan::Each { each, .. }) | Some(SetterPlan::EachAndWhole { each, .. }) => exists|i: int|
                0 <= i < f.attrs@.len() && #[trigger] f.attrs@[i].path_first@ == "builder"@
                    && match syn_parse_meta(stream_view(f.attrs@[i].tokens@)) {
                    Some(MetaModel::List(items)) => items@.len() == 1 && match syn_meta_item(
                        stream_view(items@[0]@),
                    ) {
                        Some(MetaItem::NameValueStr { path_first, value }) => path_first@ == "each"@
                            && value@ == each,
                        _ => false,
                    },
                    _ => false,
                },
            _ => true,
        },
{
    if has_attr(f.attrs@, "builder"@) {
        let k = first_attr(f.attrs@, "builder"@);
        assert(is_first_attr_of(f, k));
        assert(f.attrs@[k].path_first@ == "builder"@);
    }
}

/// Whether `k` is the position of the first `builder` attribute of `f`.
spec fn is_first_attr_of(f: FieldModel, k: int) -> bool {
    crate::model::is_first_attr(f.attrs@, "builder"@, k)
}

/// `is_vec` reads the last segment of a path type: where it is `Vec` with
/// angle-bracketed arguments whose last one is a type, that type comes back,
/// whatever segments come before it (`std::vec::Vec<T>` as `Vec<T>`).
pub proof fn law_is_vec_reads_last_segment(
    ty: TypeModel,
    segs: Vec<PathSegment>,
    args: Vec<GenericArg>,
    t: Vec<Tok>,
)
    requires
        ty.path == Some(segs),
        segs@.len() > 0,
        segs@.last().ident@ == "Vec"@,
        segs@.last().args == PathArgs::AngleBracketed(args),
        args@.len() > 0,
        args@.last() == GenericArg::Type(t),
    ensures
        spec_is_vec(ty) == Some(stream_view(t@)),
{
}

/// A type whose last path segment is not `Vec`, or that is no path, has no item type.
pub proof fn law_is_vec_only_for_vec(ty: TypeModel)
    requires
        match ty.path {
            Some(segs) => segs@.len() > 0 && segs@.last().ident@ != "Vec"@,
            None => true,
        },
    ensures
        spec_is_vec(ty) is None,
{
}

/// `unwrapped_option_type` reads the last segment of a path type: where it is
/// `Option` with angle-bracketed arguments whose first one is a type, that type
/// comes back, whatever segments come before it.
pub proof fn law_option_reads_last_segment(
    ty: TypeModel,
    segs: Vec<PathSegment>,
    args: Vec<GenericArg>,
    t: Vec<Tok>,
)
    requires
        ty.path == Some(segs),
        segs@.len() > 0,
        segs@.last().ident@ == "Option"@,
        segs@.last().args == PathArgs::AngleBracketed(args),
        args@.len() > 0,
        args@[0] == GenericArg::Type(t),
    ensures
        spec_unwrapped_option_type(ty) == Some(stream_view(t@)),
{
}

/// A type whose last path segment is not `Option`, or that is no path, is not optional.
pub proof fn law_option_only_for_option(ty: TypeModel)
    requires
        match ty.path {
            Some(segs) => segs@.len() == 0 || segs@.last().ident@ != "Option"@,
            None => true,
        },
    ensures
        spec_unwrapped_option_type(ty) is None,
{
}


/// A field's setters come from its first attribute whose path starts with
/// `builder`, wherever it stands: where that attribute holds the single item
/// `each = "name"` and the setter type is a `Vec` of a type, a setter named
/// `name` pushes one item of that type (alone where `name` is the field's
/// name, else beside the whole-field setter); in every other case the field
/// gets no setter and an error pointing at its type.
pub proof fn law_builder_field_from_first_builder_attr(f: FieldModel, i: int)
    requires
        0 <= i < f.attrs@.len(),
        f.attrs@[i].path_first@ == "builder"@,
        forall|j: int| 0 <= j < i ==> f.attrs@[j].path_first@ != "builder"@,
        analyze_fields_defined(f),
    ensures
        ({
            let m = spec_analyze_fields(f);
            match syn_parse_meta(stream_view(f.attrs@[i].tokens@)) {
                Some(MetaModel::List(items)) => match syn_meta_item(stream_view(items@[0]@)) {
                    Some(MetaItem::NameValueStr { path_first, value }) => if path_first@ == "each"@
                        && path_vec_item(setter_type_path(f)) is Some {
                        &&& m.error is None
                        &&& m.set_field_code == if value@ == f.ident@ {
                            Some(
                                (SetterPlan::<Seq<char>, Seq<TokV>>::Each {
                                    field: f.ident@,
                                    each: value@,
                                    item_ty: path_vec_item(setter_type_path(f))->0,
                                }),
                            )
                        } else {
                            Some(
                                (SetterPlan::<Seq<char>, Seq<TokV>>::EachAndWhole {
                                    field: f.ident@,
                                    each: value@,
                                    item_ty: path_vec_item(setter_type_path(f))->0,
                                    param_ty: setter_type_tokens(f),
                                }),
                            )
                        }
                    } else {
                        m.set_field_code is None && m.error == Some(stream_view(f.ty.tokens@))
                    },
                    _ => m.set_field_code is None && m.error == Some(stream_view(f.ty.tokens@)),
                },
                _ => m.set_field_code is None && m.error == Some(stream_view(f.ty.tokens@)),
            }
        }),
{
    lemma_first_attr_at(f.attrs@, "builder"@, i);
}

/// Attributes with other paths (doc comments, `allow`, ...) put before a
/// field's attributes change nothing of what is learnt of the field.
pub proof fn law_builder_field_ignores_other_attrs(f: FieldModel, g: FieldModel)
    requires
        g.ident == f.ident,
        g.ty == f.ty,
        g.attrs@.len() >= f.attrs@.len(),
        g.attrs@.subrange(g.attrs@.len() - f.attrs@.len(), g.attrs@.len() as int) == f.attrs@,
        forall|j: int|
            0 <= j < g.attrs@.len() - f.attrs@.len() ==> g.attrs@[j].path_first@ != "builder"@,
    ensures
        spec_analyze_fields(g) == spec_analyze_fields(f),
        analyze_fields_defined(g) == analyze_fields_defined(f),
{
    lemma_prefix_attrs(f.attrs@, g.attrs@, "builder"@);
}

} // verus!
