//! Plain models of the syntax that the derive macros read: types, attributes,
//! fields, generics and the derive input.
//!
//! Each model holds, as plain values, what the macros' decisions read. Where a
//! macro hands a piece of syntax back unchanged (a type, an attribute, a bound),
//! the model carries its tokens.
use vstd::prelude::*;
use crate::tokens::Tok;

verus! {

/// One argument between `<` and `>` of a path segment.
#[derive(Debug, PartialEq, Eq)]
pub enum GenericArg {
    /// A type, as its tokens.
    Type(Vec<Tok>),
    /// A lifetime, a constant, a binding or a constraint.
    Other,
}

/// The arguments of a path segment.
#[derive(Debug, PartialEq, Eq)]
pub enum PathArgs {
    NoArgs,
    AngleBracketed(Vec<GenericArg>),
    Parenthesized,
}

/// One segment of a path, such as `Vec<String>` in `std::vec::Vec<String>`.
#[derive(Debug, PartialEq, Eq)]
pub struct PathSegment {
    pub ident: String,
    pub args: PathArgs,
}

/// A type: its tokens and, for a path type (any qualified self type aside),
/// its segments; `path` is `None` for every other kind of type.
#[derive(Debug, PartialEq, Eq)]
pub struct TypeModel {
    pub tokens: Vec<Tok>,
    pub path: Option<Vec<PathSegment>>,
}

/// One item of a parenthesised attribute list.
#[derive(Debug, PartialEq, Eq)]
pub enum MetaItem {
    /// `path = "value"`; `path_first` is the first segment of the path.
    NameValueStr { path_first: String, value: String },
    /// Any other item.
    Other,
}

/// An attribute's contents, read as a meta item.
#[derive(Debug, PartialEq, Eq)]
pub enum MetaModel {
    /// `#[path = "value"]`; `path_first` is the first segment of the path.
    NameValueStr { path_first: String, value: String },
    /// `#[path(item, ...)]`, with the tokens of each item.
    List(Vec<Vec<Tok>>),
    /// A bare path, or `path = literal` with a literal that is no string.
    Other,
}

/// An attribute: the first segment of its path, and its tokens.
#[derive(Debug, PartialEq, Eq)]
pub struct AttrModel {
    pub path_first: String,
    pub tokens: Vec<Tok>,
}

/// A named field of a struct.
#[derive(Debug, PartialEq, Eq)]
pub struct FieldModel {
    pub ident: String,
    pub ty: TypeModel,
    pub attrs: Vec<AttrModel>,
}

/// The body of the item a derive is applied to.
#[derive(Debug, PartialEq, Eq)]
pub enum DataModel {
    /// A struct with named fields.
    NamedStruct(Vec<FieldModel>),
    /// A tuple struct, a unit struct, an enum or a union.
    Other,
}

/// One bound of a type parameter.
#[derive(Debug, PartialEq, Eq)]
pub enum BoundModel {
    /// A bound written in the input, as its tokens.
    Given(Vec<Tok>),
    /// `std::fmt::Debug`.
    StdFmtDebug,
}

/// One generic parameter.
#[derive(Debug, PartialEq, Eq)]
pub enum GenericParamModel {
    /// A type parameter: its attributes, its name and its bounds.
    Type { attrs: Vec<Tok>, name: String, bounds: Vec<BoundModel> },
    /// A lifetime parameter: the lifetime and its whole definition.
    Lifetime { lifetime: Vec<Tok>, def: Vec<Tok> },
    /// A const parameter: its attributes, its name and its type.
    Const { attrs: Vec<Tok>, name: String, ty: Vec<Tok> },
}

/// The generic parameters of the item, and the tokens of its `where` clause.
#[derive(Debug, PartialEq, Eq)]
pub struct GenericsModel {
    pub params: Vec<GenericParamModel>,
    pub where_clause: Vec<Tok>,
}

/// The item a derive is applied to.
#[derive(Debug, PartialEq, Eq)]
pub struct DeriveInputModel {
    pub ident: String,
    pub generics: GenericsModel,
    pub data: DataModel,
}

/// The fields of a struct with named fields.
pub open spec fn named_fields(input: DeriveInputModel) -> Seq<FieldModel> {
    match input.data {
        DataModel::NamedStruct(fields) => fields@,
        DataModel::Other => Seq::empty(),
    }
}

/// Whether the attribute at `i` is the first one whose path starts with `word`.
pub open spec fn is_first_attr(attrs: Seq<AttrModel>, word: Seq<char>, i: int) -> bool {
    &&& 0 <= i < attrs.len()
    &&& attrs[i].path_first@ == word
    &&& forall|j: int| 0 <= j < i ==> attrs[j].path_first@ != word
}

/// Whether some attribute's path starts with `word`.
pub open spec fn has_attr(attrs: Seq<AttrModel>, word: Seq<char>) -> bool {
    exists|i: int| is_first_attr(attrs, word, i)
}

/// The position of the first attribute whose path starts with `word`.
pub open spec fn first_attr(attrs: Seq<AttrModel>, word: Seq<char>) -> int {
    choose|i: int| is_first_attr(attrs, word, i)
}

/// Finds the first attribute whose path starts with `word`.
pub fn find_attr(attrs: &Vec<AttrModel>, word: &String) -> (r: Option<usize>)
    ensures
        match r {
            Some(i) => has_attr(attrs@, word@) && i == first_attr(attrs@, word@),
            None => !has_attr(attrs@, word@),
        },
{
    let mut i: usize = 0;
    while i < attrs.len()
        invariant
            i <= attrs.len(),
            forall|j: int| 0 <= j < i ==> attrs@[j].path_first@ != word@,
        decreases attrs.len() - i,
    {
        if attrs[i].path_first == *word {
            proof {
                assert(is_first_attr(attrs@, word@, i as int));
                let k = first_attr(attrs@, word@);
                assert(is_first_attr(attrs@, word@, k));
                if k < i {
                    assert(attrs@[k].path_first@ != word@);
                } else if k > i {
                    assert(attrs@[i as int].path_first@ != word@);
                }
            }
            return Some(i);
        }
        i += 1;
    }
    proof {
        if has_attr(attrs@, word@) {
            let k = choose|k: int| is_first_attr(attrs@, word@, k);
            assert(attrs@[k].path_first@ == word@);
        }
    }
    None
}


/// The attribute at `i` is the first one whose path starts with `word` when
/// its path does and no earlier one's does.
pub proof fn lemma_first_attr_at(attrs: Seq<AttrModel>, word: Seq<char>, i: int)
    requires
        0 <= i < attrs.len(),
        attrs[i].path_first@ == word,
        forall|j: int| 0 <= j < i ==> attrs[j].path_first@ != word,
    ensures
        has_attr(attrs, word),
        first_attr(attrs, word) == i,
{
    assert(is_first_attr(attrs, word, i));
    let k = first_attr(attrs, word);
    assert(is_first_attr(attrs, word, k));
    if k < i {
        assert(attrs[k].path_first@ != word);
    } else if k > i {
        assert(attrs[i].path_first@ != word);
    }
}

/// Without an attribute whose path starts with `word`, there is no first one.
pub proof fn lemma_no_attr(attrs: Seq<AttrModel>, word: Seq<char>)
    requires
        forall|j: int| 0 <= j < attrs.len() ==> attrs[j].path_first@ != word,
    ensures
        !has_attr(attrs, word),
{
    if has_attr(attrs, word) {
        let k = choose|k: int| is_first_attr(attrs, word, k);
        assert(attrs[k].path_first@ == word);
    }
}


/// Where some attribute's path starts with `word`, there is a first one.
pub proof fn lemma_some_attr(attrs: Seq<AttrModel>, word: Seq<char>, j: int)
    requires
        0 <= j < attrs.len(),
        attrs[j].path_first@ == word,
    ensures
        has_attr(attrs, word),
    decreases j,
{
    if exists|k: int| 0 <= k < j && attrs[k].path_first@ == word {
        let k = choose|k: int| 0 <= k < j && attrs[k].path_first@ == word;
        lemma_some_attr(attrs, word, k);
    } else {
        lemma_first_attr_at(attrs, word, j);
    }
}


/// Attributes whose paths do not start with `word`, put before others, leave
/// the first attribute whose path starts with `word` as it was.
pub proof fn lemma_prefix_attrs(f: Seq<AttrModel>, g: Seq<AttrModel>, word: Seq<char>)
    requires
        g.len() >= f.len(),
        g.subrange(g.len() - f.len(), g.len() as int) == f,
        forall|j: int| 0 <= j < g.len() - f.len() ==> g[j].path_first@ != word,
    ensures
        has_attr(g, word) == has_attr(f, word),
        has_attr(f, word) ==> g[first_attr(g, word)] == f[first_attr(f, word)],
{
    let p = g.len() - f.len();
    assert forall|j: int| 0 <= j < f.len() implies g[p + j] == f[j] by {
        assert(g.subrange(p, g.len() as int)[j] == g[p + j]);
    }
    if has_attr(f, word) {
        let k = first_attr(f, word);
        assert(is_first_attr(f, word, k));
        assert forall|j: int| 0 <= j < p + k implies g[j].path_first@ != word by {
            if j >= p {
                assert(g[j] == f[j - p]);
            }
        }
        lemma_first_attr_at(g, word, p + k);
    } else {
        assert forall|j: int| 0 <= j < g.len() implies g[j].path_first@ != word by {
            if j >= p {
                assert(g[j] == f[j - p]);
                if f[j - p].path_first@ == word {
                    lemma_some_attr(f, word, j - p);
                }
            }
        }
        lemma_no_attr(g, word);
    }
}

} // verus!
