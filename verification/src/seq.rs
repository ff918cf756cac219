//! The `seq!` macro.
//!
//! `seq!(N in 0..4 { ... })` repeats the braced body once for every number of
//! the half-open range, in increasing order, with every identifier `N` in the
//! body (at any depth of nesting) replaced by the number as an unsuffixed
//! integer literal that keeps the identifier's span.
use vstd::prelude::*;
use crate::tokens::{
    copy_stream, copy_tok, lemma_stream_view, lemma_stream_view_concat, lemma_stream_view_subrange, stream_view, tok_view, GroupDelimiter, PunctSpacing,
    Tok, TokV,
};

verus! {

/// Whether `syn::parse_str::<syn::Ident>` succeeds on the given text.
pub uninterp spec fn syn_accepts_ident(text: Seq<char>) -> bool;

/// Whether `syn::parse_str::<syn::LitInt>` succeeds on the given text.
pub uninterp spec fn syn_parses_lit_int(text: Seq<char>) -> bool;

/// What `LitInt::base10_parse::<u16>` gives for the integer literal written as the given text
/// (where `syn_parses_lit_int` holds of it).
pub uninterp spec fn syn_lit_int_u16(text: Seq<char>) -> Option<u16>;

/// Calls `syn::parse_str::<syn::Ident>`, which rejects `_` and Rust's keywords.
/// Claimed: the outcome is a function of the text alone; which texts pass is not stated.
#[verifier::external_body]
fn accepts_ident(text: &str) -> (r: bool)
    ensures
        r == syn_accepts_ident(text@),
{
    syn::parse_str::<syn::Ident>(text).is_ok()
}

/// Reads the literal with `syn::parse_str::<syn::LitInt>` and, where that
/// succeeds, calls `LitInt::base10_parse::<u16>` on it. Claimed: whether the
/// text reads as an integer literal, and the value read, are functions of the
/// text alone; syn's integer literal grammar and how digits, bases and
/// suffixes are read are not stated.
#[verifier::external_body]
fn read_lit_int(text: &str) -> (r: Option<Option<u16>>)
    ensures
        r is Some <==> syn_parses_lit_int(text@),
        match r {
            Some(v) => v == syn_lit_int_u16(text@),
            None => true,
        },
{
    match syn::parse_str::<syn::LitInt>(text) {
        Ok(lit) => Some(lit.base10_parse::<u16>().ok()),
        Err(_) => None,
    }
}

/// The character of a decimal digit.
pub open spec fn digit_char(d: nat) -> char {
    (d + 48) as char
}

/// The decimal representation of a number, without sign, suffix or leading zeros.
pub open spec fn decimal_text(n: nat) -> Seq<char>
    decreases n,
{
    if n < 10 {
        seq![digit_char(n)]
    } else {
        decimal_text(n / 10).push(digit_char(n % 10))
    }
}

/// Calls `proc_macro2::Literal::u16_unsuffixed` and renders the literal with
/// `to_string`. Claimed: the text is the number in decimal, with no suffix.
#[verifier::external_body]
fn u16_literal_text(v: u16) -> (r: String)
    ensures
        r@ == decimal_text(v as nat),
{
    proc_macro2::Literal::u16_unsuffixed(v).to_string()
}

/// The input of the macro, read apart: `name in start..end { contents }`.
/// `start` and `end` hold the text of the integer literals, with a leading
/// minus sign where one was written.
pub struct SeqMacro {
    pub name: String,
    pub start: String,
    pub end: String,
    pub contents: Vec<Tok>,
}

/// The value of a `SeqMacro`.
pub struct SeqMacroV {
    pub name: Seq<char>,
    pub start: Seq<char>,
    pub end: Seq<char>,
    pub contents: Seq<TokV>,
}

impl View for SeqMacro {
    type V = SeqMacroV;

    open spec fn view(&self) -> SeqMacroV {
        SeqMacroV {
            name: self.name@,
            start: self.start@,
            end: self.end@,
            contents: stream_view(self.contents@),
        }
    }
}

/// What the parser expected where it failed.
#[derive(Debug, Clone, Copy, PartialEq, Eq, Structural)]
pub enum SeqParseErrorKind {
    ExpectedIdent,
    ExpectedIn,
    ExpectedIntLiteral,
    ExpectedDotDot,
    ExpectedBraces,
    UnexpectedToken,
}

/// A parse failure and the span of the token where it happened
/// (`None` at the end of the input).
#[derive(Debug, Clone, Copy, PartialEq, Eq, Structural)]
pub struct SeqParseError {
    pub kind: SeqParseErrorKind,
    pub span: Option<usize>,
}

/// Why the macro produced no expansion.
#[derive(Debug, Clone, Copy, PartialEq, Eq, Structural)]
pub enum SeqError {
    Parse(SeqParseError),
    /// The start of the range is an integer literal that does not fit in `u16`.
    StartNotU16,
    /// The end of the range is an integer literal that does not fit in `u16`.
    EndNotU16,
}

impl SeqParseErrorKind {
    /// The message of the compile error.
    pub fn message(&self) -> (r: &'static str)
        ensures
            r@ == self.spec_message(),
    {
        match self {
            SeqParseErrorKind::ExpectedIdent => "expected identifier",
            SeqParseErrorKind::ExpectedIn => "expected `in`",
            SeqParseErrorKind::ExpectedIntLiteral => "expected integer literal",
            SeqParseErrorKind::ExpectedDotDot => "expected `..`",
            SeqParseErrorKind::ExpectedBraces => "expected curly braces",
            SeqParseErrorKind::UnexpectedToken => "unexpected token",
        }
    }

    pub open spec fn spec_message(&self) -> Seq<char> {
        match self {
            SeqParseErrorKind::ExpectedIdent => "expected identifier"@,
            SeqParseErrorKind::ExpectedIn => "expected `in`"@,
            SeqParseErrorKind::ExpectedIntLiteral => "expected integer literal"@,
            SeqParseErrorKind::ExpectedDotDot => "expected `..`"@,
            SeqParseErrorKind::ExpectedBraces => "expected curly braces"@,
            SeqParseErrorKind::UnexpectedToken => "unexpected token"@,
        }
    }
}

impl SeqParseError {
    /// The message of the compile error: where an expectation fails at the
    /// end of the input, `unexpected end of input, ` and the expectation; the
    /// expectation alone otherwise, and for a missing `..` in any case.
    pub open spec fn spec_message(&self) -> Seq<char> {
        if self.span is None && self.kind != SeqParseErrorKind::ExpectedDotDot {
            "unexpected end of input, "@ + self.kind.spec_message()
        } else {
            self.kind.spec_message()
        }
    }

    /// Writes the message of the compile error.
    pub fn message(&self) -> (r: String)
        ensures
            r@ == self.spec_message(),
    {
        let mut out = String::new();
        if self.span.is_none() && self.kind != SeqParseErrorKind::ExpectedDotDot {
            out.append("unexpected end of input, ");
        }
        out.append(self.kind.message());
        proof {
            reveal_strlit("unexpected end of input, ");
            reveal_strlit("");
        }
        out
    }
}

/// The span of a token tree.
pub open spec fn span_of(t: TokV) -> usize {
    match t {
        TokV::Group { span, .. } => span,
        TokV::Ident { span, .. } => span,
        TokV::Punct { span, .. } => span,
        TokV::Literal { span, .. } => span,
    }
}

/// The text of an identifier or literal (empty for other tokens).
pub open spec fn tok_text(t: TokV) -> Seq<char> {
    match t {
        TokV::Ident { text, .. } => text,
        TokV::Literal { text, .. } => text,
        _ => Seq::empty(),
    }
}

/// The contents of a group (empty for other tokens).
pub open spec fn group_stream(t: TokV) -> Seq<TokV> {
    match t {
        TokV::Group { stream, .. } => stream,
        _ => Seq::empty(),
    }
}

/// The stream as syn's parser walks it: invisible groups, at any depth, are
/// replaced by their contents.
pub open spec fn flatten(s: Seq<TokV>) -> Seq<TokV>
    decreases s,
{
    if s.len() == 0 {
        Seq::empty()
    } else {
        let rest = flatten(s.subrange(0, s.len() - 1));
        let last = s[s.len() - 1];
        match last {
            TokV::Group { delimiter: GroupDelimiter::Invisible, stream, .. } => rest + flatten(stream),
            _ => rest.push(last),
        }
    }
}

/// The error reported at position `k` of the walked stream.
pub open spec fn error_at(s: Seq<TokV>, kind: SeqParseErrorKind, k: int) -> SeqParseError {
    SeqParseError { kind, span: if 0 <= k < s.len() { Some(span_of(s[k])) } else { None } }
}

/// The integer literal that starts at position `k`, with the number of tokens it
/// takes: one literal token, or a `-` followed by a literal token.
pub open spec fn int_lit_at(s: Seq<TokV>, k: int) -> Option<(Seq<char>, int)> {
    if 0 <= k < s.len() {
        match s[k] {
            TokV::Literal { text, .. } => if syn_parses_lit_int(text) {
                Some((text, 1))
            } else {
                None
            },
            TokV::Punct { ch, .. } => if ch == '-' && k + 1 < s.len() && s[k + 1] is Literal
                && syn_parses_lit_int(seq!['-'] + tok_text(s[k + 1])) {
                Some((seq!['-'] + tok_text(s[k + 1]), 2))
            } else {
                None
            },
            _ => None,
        }
    } else {
        None
    }
}

/// Whether the tokens at `k` spell `..`: a joint `.` followed by a `.`.
pub open spec fn dotdot_at(s: Seq<TokV>, k: int) -> bool {
    &&& 0 <= k
    &&& k + 1 < s.len()
    &&& s[k] matches TokV::Punct { ch, spacing, .. } && ch == '.' && spacing == PunctSpacing::Joint
    &&& s[k + 1] matches TokV::Punct { ch, .. } && ch == '.'
}

/// Whether the token at `k` is an identifier that syn accepts as a name.
pub open spec fn name_at(s: Seq<TokV>, k: int) -> bool {
    0 <= k < s.len() && s[k] is Ident && syn_accepts_ident(tok_text(s[k]))
}

/// Whether the token at `k` is the keyword `in`.
pub open spec fn in_at(s: Seq<TokV>, k: int) -> bool {
    0 <= k < s.len() && s[k] is Ident && tok_text(s[k]) == "in"@
}

/// Whether the token at `k` is a group in braces.
pub open spec fn braces_at(s: Seq<TokV>, k: int) -> bool {
    &&& 0 <= k < s.len()
    &&& s[k] matches TokV::Group { delimiter, .. } && delimiter == GroupDelimiter::Brace
}

/// The result of reading `name in start..end { contents }` from the front of
/// the input: what was read, and the rest of the walked stream, left unread.
pub open spec fn parse_spec(input: Seq<TokV>) -> Result<(SeqMacroV, Seq<TokV>), SeqParseError> {
    let s = flatten(input);
    if !name_at(s, 0) {
        Err(error_at(s, SeqParseErrorKind::ExpectedIdent, 0))
    } else if !in_at(s, 1) {
        Err(error_at(s, SeqParseErrorKind::ExpectedIn, 1))
    } else {
        match int_lit_at(s, 2) {
            None => Err(error_at(s, SeqParseErrorKind::ExpectedIntLiteral, 2)),
            Some((start, a)) => {
                let k = 2 + a;
                if !dotdot_at(s, k) {
                    Err(error_at(s, SeqParseErrorKind::ExpectedDotDot, k))
                } else {
                    match int_lit_at(s, k + 2) {
                        None => Err(error_at(s, SeqParseErrorKind::ExpectedIntLiteral, k + 2)),
                        Some((end, b)) => {
                            let g = k + 2 + b;
                            if !braces_at(s, g) {
                                Err(error_at(s, SeqParseErrorKind::ExpectedBraces, g))
                            } else {
                                Ok(
                                    (
                                        SeqMacroV {
                                            name: tok_text(s[0]),
                                            start,
                                            end,
                                            contents: group_stream(s[g]),
                                        },
                                        s.subrange(g + 1, s.len() as int),
                                    ),
                                )
                            }
                        },
                    }
                }
            },
        }
    }
}

/// One step of `flatten`: the walked form of a prefix one token longer.
proof fn lemma_flatten_step(s: Seq<TokV>, i: int)
    requires
        0 <= i < s.len(),
    ensures
        flatten(s.subrange(0, i + 1)) == match s[i] {
            TokV::Group { delimiter: GroupDelimiter::Invisible, stream, .. } => flatten(
                s.subrange(0, i),
            ) + flatten(stream),
            _ => flatten(s.subrange(0, i)).push(s[i]),
        },
{
    let p = s.subrange(0, i + 1);
    assert(p.subrange(0, p.len() - 1) =~= s.subrange(0, i));
    assert(p[p.len() - 1] == s[i]);
}

/// Appends the walked form of `input` to `out`.
fn flatten_into(input: &Vec<Tok>, out: &mut Vec<Tok>)
    ensures
        stream_view(final(out)@) == stream_view(old(out)@) + flatten(stream_view(input@)),
    decreases input,
{
    let ghost out0 = out@;
    let ghost sv = stream_view(input@);
    proof {
        lemma_stream_view(input@);
        assert(sv.subrange(0, 0) =~= Seq::<TokV>::empty());
        assert(stream_view(out@) =~= stream_view(out0) + flatten(sv.subrange(0, 0)));
    }
    let mut i: usize = 0;
    while i < input.len()
        invariant
            i <= input.len(),
            sv == stream_view(input@),
            sv.len() == input@.len(),
            forall|j: int| 0 <= j < input@.len() ==> #[trigger] sv[j] == tok_view(input@[j]),
            stream_view(out@) == stream_view(out0) + flatten(sv.subrange(0, i as int)),
        decreases input.len() - i,
    {
        proof {
            lemma_flatten_step(sv, i as int);
            assert(decreases_to!(input => input@[i as int]));
        }
        let t = &input[i];
        match t {
            Tok::Group { delimiter: GroupDelimiter::Invisible, stream, .. } => {
                proof {
                    assert(decreases_to!(input@[i as int] => *stream));
                }
                flatten_into(stream, out);
                proof {
                    assert(stream_view(out@) =~= stream_view(out0) + flatten(
                        sv.subrange(0, i + 1),
                    ));
                }
            },
            _ => {
                let ghost before = out@;
                let c = copy_tok(t);
                out.push(c);
                proof {
                    lemma_stream_view_concat(before, seq![c]);
                    assert(before.push(c) =~= before + seq![c]);
                    lemma_stream_view(seq![c]);
                    assert(stream_view(seq![c]) =~= seq![tok_view(c)]);
                    assert(stream_view(out@) =~= stream_view(out0) + flatten(
                        sv.subrange(0, i + 1),
                    ));
                }
            },
        }
        i += 1;
    }
    proof {
        assert(sv.subrange(0, input@.len() as int) =~= sv);
    }
}


/// The span of a token tree.
fn tok_span(t: &Tok) -> (r: usize)
    ensures
        r == span_of(t@),
{
    match t {
        Tok::Group { span, .. } => *span,
        Tok::Ident { span, .. } => *span,
        Tok::Punct { span, .. } => *span,
        Tok::Literal { span, .. } => *span,
    }
}

/// The error at position `k` of the walked stream `s`.
fn error_at_exec(s: &Vec<Tok>, kind: SeqParseErrorKind, k: usize) -> (r: SeqParseError)
    ensures
        r == error_at(stream_view(s@), kind, k as int),
{
    proof {
        lemma_stream_view(s@);
    }
    if k < s.len() {
        SeqParseError { kind, span: Some(tok_span(&s[k])) }
    } else {
        SeqParseError { kind, span: None }
    }
}

/// Reads the integer literal at position `k`, if there is one.
fn int_lit_at_exec(s: &Vec<Tok>, k: usize) -> (r: Option<(String, usize)>)
    ensures
        match int_lit_at(stream_view(s@), k as int) {
            None => r is None,
            Some((text, n)) => r matches Some((rt, rn)) && rt@ == text && rn == n,
        },
{
    proof {
        lemma_stream_view(s@);
    }
    if k >= s.len() {
        return None;
    }
    match &s[k] {
        Tok::Literal { text, .. } => {
            if read_lit_int(text.as_str()).is_some() {
                Some((text.clone(), 1))
            } else {
                None
            }
        },
        Tok::Punct { ch, .. } => {
            if *ch == '-' && k + 1 < s.len() {
                match &s[k + 1] {
                    Tok::Literal { text, .. } => {
                        let mut negative = String::new();
                        negative.append("-");
                        negative.append(text.as_str());
                        proof {
                            reveal_strlit("-");
                            assert(negative@ =~= seq!['-'] + text@);
                        }
                        if read_lit_int(negative.as_str()).is_some() {
                            Some((negative, 2))
                        } else {
                            None
                        }
                    },
                    _ => None,
                }
            } else {
                None
            }
        },
        _ => None,
    }
}

/// Whether `..` stands at position `k`.
fn dotdot_at_exec(s: &Vec<Tok>, k: usize) -> (r: bool)
    ensures
        r == dotdot_at(stream_view(s@), k as int),
{
    proof {
        lemma_stream_view(s@);
    }
    if k < s.len() && k + 1 < s.len() {
        let first = match &s[k] {
            Tok::Punct { ch, spacing, .. } => *ch == '.' && *spacing == PunctSpacing::Joint,
            _ => false,
        };
        let second = match &s[k + 1] {
            Tok::Punct { ch, .. } => *ch == '.',
            _ => false,
        };
        first && second
    } else {
        false
    }
}

impl SeqMacro {
    /// Reads `name in start..end { contents }` from the front of the input,
    /// walking it as syn does (invisible groups are looked through), and hands
    /// back the rest of the walked stream unread.
    pub fn parse(input: &Vec<Tok>) -> (res: Result<(SeqMacro, Vec<Tok>), SeqParseError>)
        ensures
            match res {
                Ok((m, rest)) => parse_spec(stream_view(input@)) == Ok::<
                    (SeqMacroV, Seq<TokV>),
                    SeqParseError,
                >((m@, stream_view(rest@))),
                Err(e) => parse_spec(stream_view(input@)) == Err::<
                    (SeqMacroV, Seq<TokV>),
                    SeqParseError,
                >(e),
            },
    {
        let mut s: Vec<Tok> = Vec::new();
        proof {
            assert(stream_view(s@) =~= Seq::<TokV>::empty());
        }
        flatten_into(input, &mut s);
        let ghost sv = stream_view(s@);
        proof {
            lemma_stream_view(s@);
            assert(sv =~= flatten(stream_view(input@)));
        }
        let name = if s.len() > 0 {
            match &s[0] {
                Tok::Ident { text, .. } => {
                    if accepts_ident(text.as_str()) {
                        Some(text.clone())
                    } else {
                        None
                    }
                },
                _ => None,
            }
        } else {
            None
        };
        let name = match name {
            Some(n) => n,
            None => {
                return Err(error_at_exec(&s, SeqParseErrorKind::ExpectedIdent, 0));
            },
        };
        let keyword_in: String = "in".to_owned();
        let is_in = if s.len() > 1 {
            match &s[1] {
                Tok::Ident { text, .. } => *text == keyword_in,
                _ => false,
            }
        } else {
            false
        };
        if !is_in {
            return Err(error_at_exec(&s, SeqParseErrorKind::ExpectedIn, 1));
        }
        let (start, a) = match int_lit_at_exec(&s, 2) {
            Some(p) => p,
            None => {
                return Err(error_at_exec(&s, SeqParseErrorKind::ExpectedIntLiteral, 2));
            },
        };
        let k = 2 + a;
        if !dotdot_at_exec(&s, k) {
            return Err(error_at_exec(&s, SeqParseErrorKind::ExpectedDotDot, k));
        }
        let (end, b) = match int_lit_at_exec(&s, k + 2) {
            Some(p) => p,
            None => {
                return Err(error_at_exec(&s, SeqParseErrorKind::ExpectedIntLiteral, k + 2));
            },
        };
        let g = k + 2 + b;
        let contents = if g < s.len() {
            match &s[g] {
                Tok::Group { delimiter: GroupDelimiter::Brace, stream, .. } => Some(copy_stream(stream)),
                _ => None,
            }
        } else {
            None
        };
        let contents = match contents {
            Some(c) => c,
            None => {
                return Err(error_at_exec(&s, SeqParseErrorKind::ExpectedBraces, g));
            },
        };
        let ghost walked = s@;
        let rest = s.split_off(g + 1);
        proof {
            lemma_stream_view_subrange(walked, g + 1, walked.len() as int);
        }
        Ok((SeqMacro { name, start, end, contents }, rest))
    }
}


/// A token tree with every identifier `name`, at any depth, replaced by the
/// literal `lit` carrying the identifier's span; groups keep their delimiter and span.
pub open spec fn subst_tok(t: TokV, name: Seq<char>, lit: Seq<char>) -> TokV
    decreases t,
{
    match t {
        TokV::Group { delimiter, span, stream } => TokV::Group {
            delimiter,
            span,
            stream: subst_stream(stream, name, lit),
        },
        TokV::Ident { text, span } => if text == name {
            TokV::Literal { text: lit, span }
        } else {
            t
        },
        _ => t,
    }
}

/// `subst_tok` applied to each token tree of a stream.
pub open spec fn subst_stream(s: Seq<TokV>, name: Seq<char>, lit: Seq<char>) -> Seq<TokV>
    decreases s,
{
    if s.len() == 0 {
        Seq::empty()
    } else {
        subst_stream(s.subrange(0, s.len() - 1), name, lit).push(
            subst_tok(s[s.len() - 1], name, lit),
        )
    }
}

/// The body repeated for each number of `begin..end` in increasing order, with
/// `name` replaced by the number.
pub open spec fn repeat_subst(body: Seq<TokV>, name: Seq<char>, begin: int, end: int) -> Seq<TokV>
    decreases end - begin,
{
    if end <= begin {
        Seq::empty()
    } else {
        repeat_subst(body, name, begin, end - 1) + subst_stream(
            body,
            name,
            decimal_text((end - 1) as nat),
        )
    }
}

/// `subst_stream` keeps the length and works token by token.
pub proof fn lemma_subst_stream(s: Seq<TokV>, name: Seq<char>, lit: Seq<char>)
    ensures
        subst_stream(s, name, lit).len() == s.len(),
        forall|i: int|
            0 <= i < s.len() ==> #[trigger] subst_stream(s, name, lit)[i] == subst_tok(
                s[i],
                name,
                lit,
            ),
    decreases s.len(),
{
    if s.len() > 0 {
        lemma_subst_stream(s.subrange(0, s.len() - 1), name, lit);
    }
}

/// What the macro expands to, when it expands: the whole input must read,
/// with nothing after the braces.
pub open spec fn seq_spec(input: Seq<TokV>) -> Result<Seq<TokV>, SeqError> {
    match parse_spec(input) {
        Err(e) => Err(SeqError::Parse(e)),
        Ok((_, rest)) if rest.len() > 0 => Err(
            SeqError::Parse(
                SeqParseError { kind: SeqParseErrorKind::UnexpectedToken, span: Some(span_of(rest[0])) },
            ),
        ),
        Ok((m, _)) => match syn_lit_int_u16(m.start) {
            None => Err(SeqError::StartNotU16),
            Some(b) => match syn_lit_int_u16(m.end) {
                None => Err(SeqError::EndNotU16),
                Some(e) => Ok(repeat_subst(m.contents, m.name, b as int, e as int)),
            },
        },
    }
}

impl SeqMacro {
    /// Repeats the contents once for each number of the range, replacing the
    /// identifier `name` with the number.
    pub fn expand(&self) -> (r: Vec<Tok>)
        requires
            syn_parses_lit_int(self.start@),
            syn_parses_lit_int(self.end@),
            syn_lit_int_u16(self.start@) is Some,
            syn_lit_int_u16(self.end@) is Some,
        ensures
            stream_view(r@) == repeat_subst(
                stream_view(self.contents@),
                self.name@,
                syn_lit_int_u16(self.start@)->0 as int,
                syn_lit_int_u16(self.end@)->0 as int,
            ),
    {
        let begin = read_lit_int(self.start.as_str()).unwrap().unwrap();
        let end = read_lit_int(self.end.as_str()).unwrap().unwrap();
        let ghost body = stream_view(self.contents@);
        let mut expanded: Vec<Tok> = Vec::new();
        proof {
            assert(stream_view(expanded@) =~= Seq::<TokV>::empty());
        }
        if begin < end {
            let mut i: u16 = begin;
            while i < end
                invariant
                    begin <= i <= end,
                    body == stream_view(self.contents@),
                    stream_view(expanded@) == repeat_subst(body, self.name@, begin as int, i as int),
                decreases end - i,
            {
                let mut piece = self.expand_ts(&self.contents, &self.name, i);
                let ghost before = expanded@;
                let ghost added = piece@;
                expanded.append(&mut piece);
                proof {
                    lemma_stream_view_concat(before, added);
                }
                i += 1;
            }
        }
        expanded
    }

    /// Replaces the identifier `name` in every token tree of `ts`.
    pub fn expand_ts(&self, ts: &Vec<Tok>, name: &String, replace_value: u16) -> (r: Vec<Tok>)
        ensures
            stream_view(r@) == subst_stream(
                stream_view(ts@),
                name@,
                decimal_text(replace_value as nat),
            ),
        decreases ts,
    {
        let ghost lit = decimal_text(replace_value as nat);
        let mut output: Vec<Tok> = Vec::new();
        let mut i: usize = 0;
        while i < ts.len()
            invariant
                i <= ts.len(),
                lit == decimal_text(replace_value as nat),
                output@.len() == i,
                forall|j: int|
                    0 <= j < i ==> #[trigger] tok_view(output@[j]) == subst_tok(
                        tok_view(ts@[j]),
                        name@,
                        lit,
                    ),
            decreases ts.len() - i,
        {
            proof {
                assert(decreases_to!(ts => ts@[i as int]));
            }
            let t = self.expand_tt(&ts[i], name, replace_value);
            output.push(t);
            i += 1;
        }
        proof {
            lemma_stream_view(output@);
            lemma_stream_view(ts@);
            lemma_subst_stream(stream_view(ts@), name@, lit);
            assert(stream_view(output@) =~= subst_stream(stream_view(ts@), name@, lit));
        }
        output
    }

    /// Replaces the identifier `name` in one token tree: groups are rebuilt with
    /// their delimiter and span, a matching identifier becomes the literal.
    pub fn expand_tt(&self, tt: &Tok, name: &String, replace_value: u16) -> (r: Tok)
        ensures
            r@ == subst_tok(tt@, name@, decimal_text(replace_value as nat)),
        decreases tt,
    {
        match tt {
            Tok::Group { delimiter, span, stream } => {
                let updated_stream = self.expand_ts(stream, name, replace_value);
                Tok::Group { delimiter: *delimiter, span: *span, stream: updated_stream }
            },
            Tok::Ident { text, span } => {
                if *text == *name {
                    let replaced = u16_literal_text(replace_value);
                    Tok::Literal { text: replaced, span: *span }
                } else {
                    copy_tok(tt)
                }
            },
            _ => copy_tok(tt),
        }
    }
}

/// The `seq!` macro: reads the input and expands it. Where the input does not
/// read, or tokens follow the braces, the parse error comes back; where a
/// bound of the range is an integer literal that does not fit in `u16`, that
/// is said.
pub fn seq(input: &Vec<Tok>) -> (r: Result<Vec<Tok>, SeqError>)
    ensures
        match seq_spec(stream_view(input@)) {
            Ok(out) => r matches Ok(v) && stream_view(v@) == out,
            Err(e) => r == Err::<Vec<Tok>, SeqError>(e),
        },
{
    let (parsed, rest) = match SeqMacro::parse(input) {
        Ok(p) => p,
        Err(e) => {
            return Err(SeqError::Parse(e));
        },
    };
    if rest.len() > 0 {
        proof {
            lemma_stream_view(rest@);
        }
        return Err(
            SeqError::Parse(
                SeqParseError { kind: SeqParseErrorKind::UnexpectedToken, span: Some(tok_span(&rest[0])) },
            ),
        );
    }
    if read_lit_int(parsed.start.as_str()).unwrap().is_none() {
        return Err(SeqError::StartNotU16);
    }
    if read_lit_int(parsed.end.as_str()).unwrap().is_none() {
        return Err(SeqError::EndNotU16);
    }
    Ok(parsed.expand())
}


/// Whether the identifier `name` occurs in a token tree, at any depth.
pub open spec fn tok_mentions(t: TokV, name: Seq<char>) -> bool
    decreases t,
{
    match t {
        TokV::Group { stream, .. } => stream_mentions(stream, name),
        TokV::Ident { text, .. } => text == name,
        _ => false,
    }
}

/// Whether the identifier `name` occurs in a stream, at any depth.
pub open spec fn stream_mentions(s: Seq<TokV>, name: Seq<char>) -> bool
    decreases s,
{
    if s.len() == 0 {
        false
    } else {
        stream_mentions(s.subrange(0, s.len() - 1), name) || tok_mentions(s[s.len() - 1], name)
    }
}

/// A token tree in which the loop variable does not occur comes out of the
/// replacement unchanged.
pub proof fn law_subst_tok_untouched(t: TokV, name: Seq<char>, lit: Seq<char>)
    requires
        !tok_mentions(t, name),
    ensures
        subst_tok(t, name, lit) == t,
    decreases t,
{
    match t {
        TokV::Group { delimiter, span, stream } => {
            law_subst_stream_untouched(stream, name, lit);
        },
        _ => {},
    }
}

/// A stream in which the loop variable does not occur comes out of the
/// replacement unchanged.
pub proof fn law_subst_stream_untouched(s: Seq<TokV>, name: Seq<char>, lit: Seq<char>)
    requires
        !stream_mentions(s, name),
    ensures
        subst_stream(s, name, lit) == s,
    decreases s,
{
    if s.len() > 0 {
        let prefix = s.subrange(0, s.len() - 1);
        law_subst_stream_untouched(prefix, name, lit);
        law_subst_tok_untouched(s[s.len() - 1], name, lit);
        assert(prefix.push(s[s.len() - 1]) =~= s);
    }
}

/// After the replacement the loop variable occurs nowhere in a token tree.
pub proof fn law_subst_tok_replaces_all(t: TokV, name: Seq<char>, lit: Seq<char>)
    ensures
        !tok_mentions(subst_tok(t, name, lit), name),
    decreases t,
{
    match t {
        TokV::Group { delimiter, span, stream } => {
            law_subst_stream_replaces_all(stream, name, lit);
        },
        _ => {},
    }
}

/// After the replacement the loop variable occurs nowhere in a stream.
pub proof fn law_subst_stream_replaces_all(s: Seq<TokV>, name: Seq<char>, lit: Seq<char>)
    ensures
        !stream_mentions(subst_stream(s, name, lit), name),
    decreases s,
{
    if s.len() > 0 {
        let prefix = s.subrange(0, s.len() - 1);
        law_subst_stream_replaces_all(prefix, name, lit);
        law_subst_tok_replaces_all(s[s.len() - 1], name, lit);
        let r = subst_stream(s, name, lit);
        assert(r.subrange(0, r.len() - 1) =~= subst_stream(prefix, name, lit));
    }
}

/// The expansion holds the body `end - begin` times (nothing for an empty range).
pub proof fn law_repeat_len(body: Seq<TokV>, name: Seq<char>, begin: int, end: int)
    ensures
        repeat_subst(body, name, begin, end).len() == if begin < end {
            (end - begin) * body.len()
        } else {
            0
        },
    decreases end - begin,
{
    if begin < end {
        law_repeat_len(body, name, begin, end - 1);
        lemma_subst_stream(body, name, decimal_text((end - 1) as nat));
        let n = body.len() as int;
        let d = end - begin;
        assert(repeat_subst(body, name, begin, end - 1).len() == (d - 1) * n) by {
            if begin >= end - 1 {
                assert((d - 1) * n == 0) by (nonlinear_arith)
                    requires
                        d - 1 == 0,
                ;
            }
        }
        assert(d * n == (d - 1) * n + n) by (nonlinear_arith);
    }
}

/// The `k`-th block of the expansion is the body with the loop variable
/// replaced by `begin + k`.
pub proof fn law_repeat_block(body: Seq<TokV>, name: Seq<char>, begin: int, end: int, k: int)
    requires
        0 <= k < end - begin,
    ensures
        repeat_subst(body, name, begin, end).subrange(k * body.len(), (k + 1) * body.len())
            == subst_stream(body, name, decimal_text((begin + k) as nat)),
    decreases end - begin,
{
    let n = body.len() as int;
    let r = repeat_subst(body, name, begin, end);
    let p = repeat_subst(body, name, begin, end - 1);
    let q = subst_stream(body, name, decimal_text((end - 1) as nat));
    law_repeat_len(body, name, begin, end - 1);
    lemma_subst_stream(body, name, decimal_text((end - 1) as nat));
    assert(p.len() == (end - 1 - begin) * n) by {
        if begin >= end - 1 {
            assert((end - 1 - begin) * n == 0) by (nonlinear_arith)
                requires
                    end - 1 - begin == 0,
            ;
        }
    }
    assert((k + 1) * n == k * n + n) by (nonlinear_arith);
    assert(0 <= k * n) by (nonlinear_arith)
        requires
            0 <= k,
            0 <= n,
    ;
    if k == end - 1 - begin {
        assert(r.subrange(k * n, (k + 1) * n) =~= q);
    } else {
        law_repeat_block(body, name, begin, end - 1, k);
        assert((k + 1) * n <= (end - 1 - begin) * n) by (nonlinear_arith)
            requires
                k + 1 <= end - 1 - begin,
                0 <= n,
        ;
        assert(r.subrange(k * n, (k + 1) * n) =~= p.subrange(k * n, (k + 1) * n));
    }
}


/// A stream made of two streams mentions the name exactly where one of them does.
pub proof fn lemma_stream_mentions_concat(a: Seq<TokV>, b: Seq<TokV>, name: Seq<char>)
    ensures
        stream_mentions(a + b, name) == (stream_mentions(a, name) || stream_mentions(b, name)),
    decreases b.len(),
{
    if b.len() == 0 {
        assert(a + b =~= a);
    } else {
        let c = a + b;
        let b0 = b.subrange(0, b.len() - 1);
        assert(c.subrange(0, c.len() - 1) =~= a + b0);
        lemma_stream_mentions_concat(a, b0, name);
    }
}

/// The loop variable occurs nowhere in the whole expansion.
pub proof fn law_repeat_replaces_all(body: Seq<TokV>, name: Seq<char>, begin: int, end: int)
    ensures
        !stream_mentions(repeat_subst(body, name, begin, end), name),
    decreases end - begin,
{
    if begin < end {
        let lit = decimal_text((end - 1) as nat);
        law_repeat_replaces_all(body, name, begin, end - 1);
        law_subst_stream_replaces_all(body, name, lit);
        lemma_stream_mentions_concat(
            repeat_subst(body, name, begin, end - 1),
            subst_stream(body, name, lit),
            name,
        );
    }
}

} // verus!
