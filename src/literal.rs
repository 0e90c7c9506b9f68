//! Rust string literals: what value a literal's source text spells, and the
//! quoting of export names.
use vstd::prelude::*;
use crate::binding::{views, Binding, BindingView};

verus! {

/// The value of a hexadecimal digit, or -1.
pub open spec fn hex_digit(c: char) -> int {
    let v = c as int;
    if 48 <= v <= 57 {
        v - 48
    } else if 97 <= v <= 102 {
        v - 87
    } else if 65 <= v <= 70 {
        v - 55
    } else {
        -1
    }
}

/// The number of hexadecimal digits in `b` from index `i` on.
pub open spec fn hex_run(b: Seq<char>, i: int) -> int
    decreases b.len() - i,
{
    if i < 0 || i >= b.len() || hex_digit(b[i]) < 0 {
        0
    } else {
        1 + hex_run(b, i + 1)
    }
}

/// The number that a run of hexadecimal digits writes.
pub open spec fn hex_value(d: Seq<char>) -> int
    decreases d.len(),
{
    if d.len() == 0 {
        0
    } else {
        hex_value(d.drop_last()) * 16 + hex_digit(d.last())
    }
}

/// The code of the character that a one-letter escape `\c` stands for, or -1.
pub open spec fn simple_escape(c: char) -> int {
    if c == 'n' {
        10
    } else if c == 'r' {
        13
    } else if c == 't' {
        9
    } else if c == '\\' {
        92
    } else if c == '0' {
        0
    } else if c == '\'' {
        39
    } else if c == '"' {
        34
    } else {
        -1
    }
}

/// The length of the character unit at the start of a literal's body: a plain
/// character, `\c`, `\xHH` or `\u{H..}`; 0 where none starts there.
pub open spec fn unit_len(b: Seq<char>) -> int {
    if b.len() == 0 || b[0] == '"' {
        0
    } else if b[0] != '\\' {
        1
    } else if b.len() < 2 {
        0
    } else if simple_escape(b[1]) >= 0 {
        2
    } else if b[1] == 'x' {
        if b.len() >= 4 && 0 <= hex_digit(b[2]) <= 7 && hex_digit(b[3]) >= 0 {
            4
        } else {
            0
        }
    } else if b[1] == 'u' && b.len() >= 3 && b[2] == '{' {
        let n = hex_run(b, 3);
        if 1 <= n <= 6 && b.len() > 3 + n && b[3 + n] == '}' {
            4 + n
        } else {
            0
        }
    } else {
        0
    }
}

/// The code of the character that the unit at the start of `b` stands for.
pub open spec fn unit_code(b: Seq<char>) -> int {
    if b[0] != '\\' {
        b[0] as int
    } else if simple_escape(b[1]) >= 0 {
        simple_escape(b[1])
    } else if b[1] == 'x' {
        hex_digit(b[2]) * 16 + hex_digit(b[3])
    } else {
        hex_value(b.subrange(3, 3 + hex_run(b, 3)))
    }
}

/// Whether the body of a literal, between its quotes, spells `s`.
pub open spec fn spells(b: Seq<char>, s: Seq<char>) -> bool
    decreases b.len(),
{
    if s.len() == 0 {
        b.len() == 0
    } else {
        let n = unit_len(b);
        &&& 0 < n <= b.len()
        &&& unit_code(b) == s[0] as int
        &&& spells(b.subrange(n, b.len() as int), s.drop_first())
    }
}

/// Whether `t` is a double-quoted string literal whose value is `s`.
pub open spec fn string_literal_of(t: Seq<char>, s: Seq<char>) -> bool {
    &&& t.len() >= 2
    &&& t[0] == '"'
    &&& t[t.len() - 1] == '"'
    &&& spells(t.subrange(1, t.len() - 1), s)
}

/// The texts of a list of strings.
pub open spec fn texts(v: Seq<String>) -> Seq<Seq<char>> {
    v.map_values(|s: String| s@)
}

/// One literal per binding, each spelling that binding's export name.
pub open spec fn quoted_all(bs: Seq<BindingView>, lits: Seq<Seq<char>>) -> bool {
    &&& lits.len() == bs.len()
    &&& forall|i: int| 0 <= i < bs.len() ==> string_literal_of(#[trigger] lits[i], bs[i].export)
}

proof fn lemma_spells_unique(b: Seq<char>, s1: Seq<char>, s2: Seq<char>)
    requires
        spells(b, s1),
        spells(b, s2),
    ensures
        s1 == s2,
    decreases b.len(),
{
    if s1.len() == 0 || s2.len() == 0 {
        assert(s1.len() == 0 && s2.len() == 0);
        assert(s1 =~= s2);
    } else {
        let n = unit_len(b);
        lemma_spells_unique(b.subrange(n, b.len() as int), s1.drop_first(), s2.drop_first());
        assert(s1[0] as int == s2[0] as int);
        assert(s1[0] == s2[0]);
        assert(s1 =~= seq![s1[0]] + s1.drop_first());
        assert(s2 =~= seq![s2[0]] + s2.drop_first());
    }
}

/// A literal's text spells at most one value, so a lookup key names exactly
/// one export.
pub proof fn law_literal_value_unique(t: Seq<char>, s1: Seq<char>, s2: Seq<char>)
    requires
        string_literal_of(t, s1),
        string_literal_of(t, s2),
    ensures
        s1 == s2,
{
    lemma_spells_unique(t.subrange(1, t.len() - 1), s1, s2);
}

/// Relies on proc_macro2::Literal::string, printed through its `Display`.
/// Whichever escaper runs (the compiler's inside a macro, proc-macro2's own
/// elsewhere), the text is a double-quoted string literal whose value is `s`;
/// its exact spelling may differ between them.
#[verifier::external_body]
fn literal_text(s: &str) -> (r: String)
    ensures
        string_literal_of(r@, s@),
{
    proc_macro2::Literal::string(s).to_string()
}

/// Quotes each binding's export name as a string literal.
pub fn quote_exports(bs: &Vec<Binding>) -> (r: Vec<String>)
    ensures
        quoted_all(views(bs@), texts(r@)),
{
    let mut out: Vec<String> = Vec::new();
    let mut i: usize = 0;
    while i < bs.len()
        invariant
            i <= bs@.len(),
            out@.len() == i,
            forall|j: int| 0 <= j < i ==> string_literal_of(#[trigger] out@[j]@, bs@[j].export@),
        decreases bs@.len() - i,
    {
        let lit = literal_text(bs[i].export.as_str());
        out.push(lit);
        i = i + 1;
    }
    proof {
        let v = views(bs@);
        let l = texts(out@);
        assert forall|j: int| 0 <= j < v.len() implies string_literal_of(#[trigger] l[j], v[j].export) by {
            assert(string_literal_of(out@[j]@, bs@[j].export@));
        }
    }
    out
}

} // verus!
