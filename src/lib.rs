//! A generator of host-environment bindings: it reads a type definition whose
//! fields may be marked for binding to a module instance's exports, checks each
//! marked field, and writes the source of the trait impl and accessors.
pub mod binding;
pub mod directive;

pub mod laws;
pub mod literal;
pub mod schema;
pub mod shape;
pub mod synth;

use vstd::prelude::*;
use crate::binding::{bind_field, binding_of, views, Binding, BindingView};
use crate::directive::{field_directive, find_directive, SyntaxError};
use crate::schema::{DataKind, FieldDef, TypeDef};
use crate::literal::{quote_exports, quoted_all, texts};
use crate::shape::{text_result, Mismatch};
use crate::synth::{expansion, expansion_text};

verus! {

/// Why generation failed for a type. Field and annotation positions are
/// indices in declaration order.
#[derive(Clone, Copy, Debug, PartialEq, Eq, Structural)]
pub enum GenError {
    /// The type is not a struct with named fields.
    UnsupportedShape,
    /// A field's binding marker has malformed arguments.
    AnnotationSyntax { field: usize, annotation: usize, error: SyntaxError },
    /// A marked field's type is not the lazy cell around one named type.
    WrapperShape { field: usize, mismatch: Mismatch },
}

/// What field `i` contributes: nothing when it carries no marker, its binding
/// when it is marked and well-formed, else the error it raises.
pub open spec fn field_step(f: FieldDef, i: int) -> Result<Option<BindingView>, GenError> {
    match field_directive(f.annotations@) {
        Err((a, e)) => Err(GenError::AnnotationSyntax { field: i as usize, annotation: a, error: e }),
        Ok(None) => Ok(None),
        Ok(Some(d)) => match binding_of(f, d) {
            Ok(b) => Ok(Some(b)),
            Err(m) => Err(GenError::WrapperShape { field: i as usize, mismatch: m }),
        },
    }
}

/// The bindings of the first `n` fields, or the error of the first field that fails.
pub open spec fn bindings_upto(fs: Seq<FieldDef>, n: int) -> Result<Seq<BindingView>, GenError>
    decreases n,
{
    if n <= 0 {
        Ok(Seq::empty())
    } else {
        match bindings_upto(fs, n - 1) {
            Err(e) => Err(e),
            Ok(bs) => match field_step(fs[n - 1], n - 1) {
                Err(e) => Err(e),
                Ok(None) => Ok(bs),
                Ok(Some(b)) => Ok(bs.push(b)),
            },
        }
    }
}

/// The bindings of all fields, in declaration order.
pub open spec fn bindings_of(fs: Seq<FieldDef>) -> Result<Seq<BindingView>, GenError> {
    bindings_upto(fs, fs.len() as int)
}

/// The bindings of a type definition, or why it cannot be generated.
pub open spec fn outcome(def: TypeDef) -> Result<Seq<BindingView>, GenError> {
    match def.data {
        DataKind::Named(fs) => bindings_of(fs@),
        _ => Err(GenError::UnsupportedShape),
    }
}

/// Whether `r` is a correct result of generation for `def`: the error of
/// `outcome`, or the expansion of its bindings where each lookup key is a
/// string literal spelling that binding's export name. Only the spelling of
/// those literals is left open.
pub open spec fn generates(def: TypeDef, r: Result<Seq<char>, GenError>) -> bool {
    match outcome(def) {
        Err(e) => r == Err::<Seq<char>, GenError>(e),
        Ok(bs) => {
            &&& r is Ok
            &&& exists|lits: Seq<Seq<char>>|
                quoted_all(bs, lits) && r->Ok_0 == #[trigger] expansion_text(def, bs, lits)
        },
    }
}

/// Once a prefix of the fields fails, every longer prefix fails with the same error.
pub proof fn lemma_error_persists(fs: Seq<FieldDef>, k: int, n: int)
    requires
        0 <= k <= n,
        bindings_upto(fs, k) is Err,
    ensures
        bindings_upto(fs, n) == bindings_upto(fs, k),
    decreases n - k,
{
    if n > k {
        lemma_error_persists(fs, k, n - 1);
    }
}

/// Parses and validates every field in declaration order, stopping at the
/// first that fails.
pub fn collect_bindings(fields: &Vec<FieldDef>) -> (r: Result<Vec<Binding>, GenError>)
    ensures
        match r {
            Ok(bs) => bindings_of(fields@) == Ok::<Seq<BindingView>, GenError>(views(bs@)),
            Err(e) => bindings_of(fields@) == Err::<Seq<BindingView>, GenError>(e),
        },
{
    let mut out: Vec<Binding> = Vec::new();
    let mut i: usize = 0;
    assert(views(out@) =~= Seq::<BindingView>::empty());
    while i < fields.len()
        invariant
            i <= fields@.len(),
            bindings_upto(fields@, i as int) == Ok::<Seq<BindingView>, GenError>(views(out@)),
        decreases fields@.len() - i,
    {
        let f = &fields[i];
        match find_directive(&f.annotations) {
            Err((a, e)) => {
                proof {
                    lemma_error_persists(fields@, i + 1, fields@.len() as int);
                }
                return Err(GenError::AnnotationSyntax { field: i, annotation: a, error: e });
            },
            Ok(None) => {},
            Ok(Some(d)) => match bind_field(f, &d) {
                Err(m) => {
                    proof {
                        lemma_error_persists(fields@, i + 1, fields@.len() as int);
                    }
                    return Err(GenError::WrapperShape { field: i, mismatch: m });
                },
                Ok(b) => {
                    let ghost before = out@;
                    out.push(b);
                    proof {
                        assert(views(out@) =~= views(before).push(b@));
                    }
                },
            },
        }
        i = i + 1;
    }
    Ok(out)
}

/// Generates the trait impl and the accessors for a type definition.
pub fn generate(def: &TypeDef) -> (r: Result<String, GenError>)
    ensures
        generates(*def, text_result(r)),
{
    match &def.data {
        DataKind::Named(fields) => match collect_bindings(fields) {
            Ok(bs) => {
                let lits = quote_exports(&bs);
                let out = expansion(def, &bs, &lits);
                let r = Ok(out);
                proof {
                    let found = outcome(*def)->Ok_0;
                    assert(found == views(bs@));
                    assert(quoted_all(found, texts(lits@)));
                    assert(text_result(r)->Ok_0 == expansion_text(*def, found, texts(lits@)));
                }
                r
            },
            Err(e) => Err(e),
        },
        _ => Err(GenError::UnsupportedShape),
    }
}

} // verus!
