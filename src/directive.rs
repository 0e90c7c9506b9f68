//! Recognising the binding marker among a field's annotations and parsing its
//! arguments. The accepted content after the marker's path is
//! `(export)`, `(export())` or `(export(name = "..."))`.
use vstd::prelude::*;
use crate::schema::{Annotation, Delimiter, Token};

verus! {

/// The parsed form of a field's binding marker.
#[derive(Clone, Debug)]
pub enum Directive {
    /// Bind the field to an export; `name` overrides the field's identifier.
    Export { name: Option<String> },
}

/// What the directive parser expected and did not find.
#[derive(Clone, Copy, Debug, PartialEq, Eq, Structural)]
pub enum SyntaxProblem {
    ExpectedOpenParen,
    ExpectedExport,
    ExpectedCloseParen,
    ExpectedName,
    ExpectedEquals,
    ExpectedString,
    TrailingTokens,
}

/// A malformed directive: the index of the offending token (equal to the
/// number of tokens where the content ended too early) and the problem.
#[derive(Clone, Copy, Debug, PartialEq, Eq, Structural)]
pub struct SyntaxError {
    pub position: usize,
    pub problem: SyntaxProblem,
}

/// The path of the binding marker.
pub open spec fn marker_word() -> Seq<char> {
    "wasmer"@
}

pub open spec fn is_marker(a: Annotation) -> bool {
    a.path@.len() == 1 && a.path@[0]@ == marker_word()
}

pub open spec fn is_word(t: Token, w: Seq<char>) -> bool {
    t matches Token::Ident(s) && s@ == w
}

pub open spec fn is_open_paren(t: Token) -> bool {
    t matches Token::Open(Delimiter::Paren)
}

pub open spec fn is_close_paren(t: Token) -> bool {
    t matches Token::Close(Delimiter::Paren)
}

pub open spec fn is_equals(t: Token) -> bool {
    t matches Token::Punct(c) && c == '='
}

pub open spec fn syntax_error(i: int, problem: SyntaxProblem) -> Result<Directive, SyntaxError> {
    Err(SyntaxError { position: i as usize, problem })
}

/// The end of a directive: a closing parenthesis at `i` and nothing after it.
pub open spec fn directive_tail(t: Seq<Token>, i: int, name: Option<String>) -> Result<
    Directive,
    SyntaxError,
> {
    if t.len() <= i || !is_close_paren(t[i]) {
        syntax_error(i, SyntaxProblem::ExpectedCloseParen)
    } else if t.len() > i + 1 {
        syntax_error(i + 1, SyntaxProblem::TrailingTokens)
    } else {
        Ok(Directive::Export { name })
    }
}

/// The meaning of a marker's content: the directive, or the first token at
/// which the content departs from the grammar.
pub open spec fn directive_of(t: Seq<Token>) -> Result<Directive, SyntaxError> {
    if t.len() < 1 || !is_open_paren(t[0]) {
        syntax_error(0, SyntaxProblem::ExpectedOpenParen)
    } else if t.len() < 2 || !is_word(t[1], "export"@) {
        syntax_error(1, SyntaxProblem::ExpectedExport)
    } else if t.len() < 3 {
        syntax_error(2, SyntaxProblem::ExpectedCloseParen)
    } else if is_close_paren(t[2]) {
        directive_tail(t, 2, None)
    } else if !is_open_paren(t[2]) {
        syntax_error(2, SyntaxProblem::ExpectedCloseParen)
    } else if t.len() > 3 && is_close_paren(t[3]) {
        directive_tail(t, 4, None)
    } else if t.len() < 4 || !is_word(t[3], "name"@) {
        syntax_error(3, SyntaxProblem::ExpectedName)
    } else if t.len() < 5 || !is_equals(t[4]) {
        syntax_error(4, SyntaxProblem::ExpectedEquals)
    } else if t.len() < 6 || !(t[5] is Str) {
        syntax_error(5, SyntaxProblem::ExpectedString)
    } else if t.len() < 7 || !is_close_paren(t[6]) {
        syntax_error(6, SyntaxProblem::ExpectedCloseParen)
    } else {
        directive_tail(t, 7, Some(t[5]->Str_0))
    }
}

/// The index of the first marker at or after `i`, if any.
pub open spec fn first_marker(anns: Seq<Annotation>, i: int) -> Option<int>
    decreases anns.len() - i,
{
    if i < 0 || i >= anns.len() {
        None
    } else if is_marker(anns[i]) {
        Some(i)
    } else {
        first_marker(anns, i + 1)
    }
}

/// A field's directive: none without a marker; else the parse of the first
/// marker's content, an error carrying that marker's index.
pub open spec fn field_directive(anns: Seq<Annotation>) -> Result<
    Option<Directive>,
    (usize, SyntaxError),
> {
    match first_marker(anns, 0) {
        None => Ok(None),
        Some(i) => match directive_of(anns[i].tokens@) {
            Ok(d) => Ok(Some(d)),
            Err(e) => Err((i as usize, e)),
        },
    }
}

fn text_equals(s: &String, w: &str) -> (r: bool)
    ensures
        r == (s@ == w@),
{
    let ws = String::from_str(w);
    s.eq(&ws)
}

fn word_at(t: &Vec<Token>, i: usize, w: &str) -> (r: bool)
    ensures
        r == (i < t@.len() && is_word(t@[i as int], w@)),
{
    if i >= t.len() {
        return false;
    }
    match &t[i] {
        Token::Ident(s) => text_equals(s, w),
        _ => false,
    }
}

fn open_paren_at(t: &Vec<Token>, i: usize) -> (r: bool)
    ensures
        r == (i < t@.len() && is_open_paren(t@[i as int])),
{
    i < t.len() && matches!(t[i], Token::Open(Delimiter::Paren))
}

fn close_paren_at(t: &Vec<Token>, i: usize) -> (r: bool)
    ensures
        r == (i < t@.len() && is_close_paren(t@[i as int])),
{
    i < t.len() && matches!(t[i], Token::Close(Delimiter::Paren))
}

fn tail(t: &Vec<Token>, i: usize, name: Option<String>) -> (r: Result<Directive, SyntaxError>)
    requires
        i < usize::MAX,
    ensures
        r == directive_tail(t@, i as int, name),
{
    if !close_paren_at(t, i) {
        Err(SyntaxError { position: i, problem: SyntaxProblem::ExpectedCloseParen })
    } else if t.len() > i + 1 {
        Err(SyntaxError { position: i + 1, problem: SyntaxProblem::TrailingTokens })
    } else {
        Ok(Directive::Export { name })
    }
}

/// Parses the content that follows a marker's path.
pub fn parse_directive(t: &Vec<Token>) -> (r: Result<Directive, SyntaxError>)
    ensures
        r == directive_of(t@),
{
    if !open_paren_at(t, 0) {
        return Err(SyntaxError { position: 0, problem: SyntaxProblem::ExpectedOpenParen });
    }
    if !word_at(t, 1, "export") {
        return Err(SyntaxError { position: 1, problem: SyntaxProblem::ExpectedExport });
    }
    if t.len() < 3 {
        return Err(SyntaxError { position: 2, problem: SyntaxProblem::ExpectedCloseParen });
    }
    if close_paren_at(t, 2) {
        return tail(t, 2, None);
    }
    if !open_paren_at(t, 2) {
        return Err(SyntaxError { position: 2, problem: SyntaxProblem::ExpectedCloseParen });
    }
    if close_paren_at(t, 3) {
        return tail(t, 4, None);
    }
    if !word_at(t, 3, "name") {
        return Err(SyntaxError { position: 3, problem: SyntaxProblem::ExpectedName });
    }
    if t.len() < 5 || !matches!(t[4], Token::Punct('=')) {
        return Err(SyntaxError { position: 4, problem: SyntaxProblem::ExpectedEquals });
    }
    let name = if t.len() < 6 {
        None
    } else {
        match &t[5] {
            Token::Str(s) => Some(s.clone()),
            _ => None,
        }
    };
    match name {
        None => Err(SyntaxError { position: 5, problem: SyntaxProblem::ExpectedString }),
        Some(s) => {
            if !close_paren_at(t, 6) {
                Err(SyntaxError { position: 6, problem: SyntaxProblem::ExpectedCloseParen })
            } else {
                tail(t, 7, Some(s))
            }
        },
    }
}

/// Whether an annotation is the binding marker.
pub fn is_marker_annotation(a: &Annotation) -> (r: bool)
    ensures
        r == is_marker(*a),
{
    a.path.len() == 1 && text_equals(&a.path[0], "wasmer")
}

/// Finds the first marker among a field's annotations and parses it; later
/// markers are ignored.
pub fn find_directive(anns: &Vec<Annotation>) -> (r: Result<Option<Directive>, (usize, SyntaxError)>)
    ensures
        r == field_directive(anns@),
{
    let mut i: usize = 0;
    while i < anns.len()
        invariant
            i <= anns@.len(),
            first_marker(anns@, 0) == first_marker(anns@, i as int),
        decreases anns@.len() - i,
    {
        if is_marker_annotation(&anns[i]) {
            return match parse_directive(&anns[i].tokens) {
                Ok(d) => Ok(Some(d)),
                Err(e) => Err((i, e)),
            };
        }
        i = i + 1;
    }
    Ok(None)
}

} // verus!
