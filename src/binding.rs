//! A validated binding: a marked field whose type has the wrapper shape, with
//! the export name that its lookup uses.
use vstd::prelude::*;
use crate::directive::Directive;
use crate::schema::FieldDef;
use crate::shape::{inner_type, wrapped_type, Mismatch};

verus! {

/// A field to bind: its identifier, the inner type of its lazy cell, and the
/// name of the export to look up.
#[derive(Clone, Debug)]
pub struct Binding {
    pub field: String,
    pub inner: String,
    pub export: String,
}

/// The text of a binding.
pub struct BindingView {
    pub field: Seq<char>,
    pub inner: Seq<char>,
    pub export: Seq<char>,
}

impl View for Binding {
    type V = BindingView;

    open spec fn view(&self) -> BindingView {
        BindingView { field: self.field@, inner: self.inner@, export: self.export@ }
    }
}

/// The texts of a list of bindings.
pub open spec fn views(bs: Seq<Binding>) -> Seq<BindingView> {
    bs.map_values(|b: Binding| b@)
}

/// The export a directive names: its explicit name if it has one, else the
/// field's identifier, unchanged.
pub open spec fn export_name(d: Directive, field: Seq<char>) -> Seq<char> {
    match d {
        Directive::Export { name: Some(n) } => n@,
        Directive::Export { name: None } => field,
    }
}

/// The binding of a marked field, or how its type departs from the wrapper shape.
pub open spec fn binding_of(f: FieldDef, d: Directive) -> Result<BindingView, Mismatch> {
    match wrapped_type(f.ty) {
        Ok(inner) => Ok(BindingView { field: f.name@, inner, export: export_name(d, f.name@) }),
        Err(m) => Err(m),
    }
}

/// Validates a marked field and resolves its export name.
pub fn bind_field(f: &FieldDef, d: &Directive) -> (r: Result<Binding, Mismatch>)
    ensures
        match r {
            Ok(b) => binding_of(*f, *d) == Ok::<BindingView, Mismatch>(b@),
            Err(m) => binding_of(*f, *d) == Err::<BindingView, Mismatch>(m),
        },
{
    match inner_type(&f.ty) {
        Err(m) => Err(m),
        Ok(inner) => {
            let export = match d {
                Directive::Export { name: Some(n) } => n.clone(),
                Directive::Export { name: None } => f.name.clone(),
            };
            Ok(Binding { field: f.name.clone(), inner, export })
        },
    }
}

} // verus!
