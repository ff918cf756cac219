//! A plain model of Rust token trees.
//!
//! Spans are carried as opaque `usize` handles: the glue code that builds a
//! token tree keeps the real spans in a side table and finds them again by
//! these numbers.
use vstd::prelude::*;

verus! {

/// How a group of tokens is delimited.
#[derive(Debug, Clone, Copy, PartialEq, Eq, Structural)]
pub enum GroupDelimiter {
    Parenthesis,
    Brace,
    Bracket,
    /// An invisible delimiter, as produced by macro expansion.
    Invisible,
}

/// Whether a punctuation character is joined to the next one.
#[derive(Debug, Clone, Copy, PartialEq, Eq, Structural)]
pub enum PunctSpacing {
    Alone,
    Joint,
}

/// One token tree.
#[derive(Debug, PartialEq, Eq)]
pub enum Tok {
    Group { delimiter: GroupDelimiter, span: usize, stream: Vec<Tok> },
    Ident { text: String, span: usize },
    Punct { ch: char, spacing: PunctSpacing, span: usize },
    Literal { text: String, span: usize },
}

/// The mathematical value of a token tree.
pub enum TokV {
    Group { delimiter: GroupDelimiter, span: usize, stream: Seq<TokV> },
    Ident { text: Seq<char>, span: usize },
    Punct { ch: char, spacing: PunctSpacing, span: usize },
    Literal { text: Seq<char>, span: usize },
}

/// The value of one token tree.
pub open spec fn tok_view(t: Tok) -> TokV
    decreases t,
{
    match t {
        Tok::Group { delimiter, span, stream } => TokV::Group {
            delimiter,
            span,
            stream: stream_view(stream@),
        },
        Tok::Ident { text, span } => TokV::Ident { text: text@, span },
        Tok::Punct { ch, spacing, span } => TokV::Punct { ch, spacing, span },
        Tok::Literal { text, span } => TokV::Literal { text: text@, span },
    }
}

/// The value of a sequence of token trees, element by element.
pub open spec fn stream_view(s: Seq<Tok>) -> Seq<TokV>
    decreases s,
{
    if s.len() == 0 {
        Seq::empty()
    } else {
        stream_view(s.subrange(0, s.len() - 1)).push(tok_view(s[s.len() - 1]))
    }
}

impl View for Tok {
    type V = TokV;

    open spec fn view(&self) -> TokV {
        tok_view(*self)
    }
}

/// `stream_view` keeps the length and maps each element.
pub proof fn lemma_stream_view(s: Seq<Tok>)
    ensures
        stream_view(s).len() == s.len(),
        forall|i: int| 0 <= i < s.len() ==> #[trigger] stream_view(s)[i] == tok_view(s[i]),
    decreases s.len(),
{
    if s.len() > 0 {
        lemma_stream_view(s.subrange(0, s.len() - 1));
    }
}

/// The value of a concatenation is the concatenation of the values.
pub proof fn lemma_stream_view_concat(a: Seq<Tok>, b: Seq<Tok>)
    ensures
        stream_view(a + b) == stream_view(a) + stream_view(b),
{
    lemma_stream_view(a);
    lemma_stream_view(b);
    lemma_stream_view(a + b);
    assert(stream_view(a + b) =~= stream_view(a) + stream_view(b));
}

/// The value of a slice is the slice of the value.
pub proof fn lemma_stream_view_subrange(s: Seq<Tok>, a: int, b: int)
    requires
        0 <= a <= b <= s.len(),
    ensures
        stream_view(s.subrange(a, b)) == stream_view(s).subrange(a, b),
{
    lemma_stream_view(s);
    lemma_stream_view(s.subrange(a, b));
    assert(stream_view(s.subrange(a, b)) =~= stream_view(s).subrange(a, b));
}

/// Copies a token tree.
pub fn copy_tok(t: &Tok) -> (r: Tok)
    ensures
        r@ == t@,
    decreases t,
{
    match t {
        Tok::Group { delimiter, span, stream } => Tok::Group {
            delimiter: *delimiter,
            span: *span,
            stream: copy_stream(stream),
        },
        Tok::Ident { text, span } => Tok::Ident { text: text.clone(), span: *span },
        Tok::Punct { ch, spacing, span } => Tok::Punct { ch: *ch, spacing: *spacing, span: *span },
        Tok::Literal { text, span } => Tok::Literal { text: text.clone(), span: *span },
    }
}

/// Copies a sequence of token trees.
pub fn copy_stream(s: &Vec<Tok>) -> (r: Vec<Tok>)
    ensures
        stream_view(r@) == stream_view(s@),
    decreases s,
{
    let mut r: Vec<Tok> = Vec::new();
    let mut i: usize = 0;
    while i < s.len()
        invariant
            i <= s.len(),
            r@.len() == i,
            forall|j: int| 0 <= j < i ==> #[trigger] tok_view(r@[j]) == tok_view(s@[j]),
        decreases s.len() - i,
    {
        proof {
            assert(decreases_to!(s => s@[i as int]));
        }
        let t = copy_tok(&s[i]);
        r.push(t);
        i += 1;
    }
    proof {
        lemma_stream_view(r@);
        lemma_stream_view(s@);
        assert(stream_view(r@) =~= stream_view(s@));
    }
    r
}


/// Whether `c` is a character that a punctuation token can hold:
/// one of `! # $ % & ' * + , - . / : ; < = > ? @ ^ | ~`.
pub open spec fn is_punct_char(c: char) -> bool {
    ||| c == '!' ||| c == '#' ||| c == '$' ||| c == '%' ||| c == '&' ||| c == '\''
    ||| c == '*' ||| c == '+' ||| c == ',' ||| c == '-' ||| c == '.' ||| c == '/'
    ||| c == ':' ||| c == ';' ||| c == '<' ||| c == '=' ||| c == '>' ||| c == '?'
    ||| c == '@' ||| c == '^' ||| c == '|' ||| c == '~'
}

/// Whether every punctuation token in a token tree, at any depth, holds a
/// punctuation character.
pub open spec fn tok_puncts_valid(t: TokV) -> bool
    decreases t,
{
    match t {
        TokV::Group { stream, .. } => puncts_valid(stream),
        TokV::Punct { ch, .. } => is_punct_char(ch),
        _ => true,
    }
}

/// Whether every punctuation token in a stream, at any depth, holds a
/// punctuation character.
pub open spec fn puncts_valid(s: Seq<TokV>) -> bool
    decreases s,
{
    if s.len() == 0 {
        true
    } else {
        puncts_valid(s.subrange(0, s.len() - 1)) && tok_puncts_valid(s[s.len() - 1])
    }
}

/// Every token of a stream whose punctuation is valid has valid punctuation.
pub proof fn lemma_puncts_valid_index(s: Seq<TokV>, i: int)
    requires
        puncts_valid(s),
        0 <= i < s.len(),
    ensures
        tok_puncts_valid(s[i]),
    decreases s.len(),
{
    if i < s.len() - 1 {
        lemma_puncts_valid_index(s.subrange(0, s.len() - 1), i);
    }
}

/// Whether `c` is a punctuation character.
pub fn punct_char(c: char) -> (r: bool)
    ensures
        r == is_punct_char(c),
{
    c == '!' || c == '#' || c == '$' || c == '%' || c == '&' || c == '\'' || c == '*' || c == '+'
        || c == ',' || c == '-' || c == '.' || c == '/' || c == ':' || c == ';' || c == '<'
        || c == '=' || c == '>' || c == '?' || c == '@' || c == '^' || c == '|' || c == '~'
}

/// Tells whether every punctuation token of a stream, at any depth, holds a
/// punctuation character.
pub fn valid_puncts(s: &Vec<Tok>) -> (r: bool)
    ensures
        r == puncts_valid(stream_view(s@)),
    decreases s,
{
    let ghost sv = stream_view(s@);
    proof {
        lemma_stream_view(s@);
        assert(sv.subrange(0, 0) =~= Seq::<TokV>::empty());
    }
    let mut i: usize = 0;
    while i < s.len()
        invariant
            i <= s.len(),
            sv == stream_view(s@),
            sv.len() == s@.len(),
            forall|j: int| 0 <= j < s@.len() ==> #[trigger] sv[j] == tok_view(s@[j]),
            puncts_valid(sv.subrange(0, i as int)),
        decreases s.len() - i,
    {
        proof {
            assert(decreases_to!(s => s@[i as int]));
        }
        let ghost tv = sv[i as int];
        assert(tv == tok_view(s@[i as int]));
        let ok = match &s[i] {
            Tok::Group { stream, .. } => {
                proof {
                    assert(decreases_to!(s@[i as int] => *stream));
                    assert(decreases_to!(s => *stream));
                }
                let r = valid_puncts(stream);
                proof {
                    assert(tv == TokV::Group { delimiter: tv->Group_delimiter, span: tv->Group_span, stream: stream_view(stream@) });
                }
                r
            },
            Tok::Punct { ch, .. } => {
                assert(tv == TokV::Punct { ch: *ch, spacing: tv->Punct_spacing, span: tv->Punct_span });
                punct_char(*ch)
            },
            _ => true,
        };
        assert(ok == tok_puncts_valid(tv));
        if !ok {
            proof {
                if puncts_valid(sv) {
                    lemma_puncts_valid_index(sv, i as int);
                }
            }
            return false;
        }
        proof {
            let q = sv.subrange(0, i + 1);
            assert(q.subrange(0, q.len() - 1) =~= sv.subrange(0, i as int));
        }
        i += 1;
    }
    proof {
        assert(sv.subrange(0, sv.len() as int) =~= sv);
    }
    true
}

} // verus!
