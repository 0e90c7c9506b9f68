//! The code synthesizer: the source text of the trait impl (`finish`, `free`)
//! and of the accessor methods, in binding order.
use vstd::prelude::*;
use crate::binding::{views, Binding, BindingView};
use crate::literal::texts;
use crate::schema::{GenericParam, TypeDef};

verus! {

/// The statements that look one export up, under the key written by the
/// literal `lit`, and store it in its field.
pub open spec fn lookup_stmt(b: BindingView, lit: Seq<char>) -> Seq<char> {
    "        let "@ + b.field + ": "@ + b.inner + " = instance.exports.get_with_generics("@
        + lit + ")?;\n        self."@ + b.field + ".initialize("@ + b.field
        + ");\n"@
}

/// The accessor of one binding: the field's identifier with `_ref` appended,
/// reading the lazy cell without checking that it was set.
pub open spec fn accessor(b: BindingView) -> Seq<char> {
    "    pub fn "@ + b.field + "_ref(&self) -> &"@ + b.inner + " {\n        unsafe { self."@
        + b.field + ".get_unchecked() }\n    }\n"@
}

/// The lookup statements of all bindings, in order, binding `i` under key `lits[i]`.
pub open spec fn lookups(bs: Seq<BindingView>, lits: Seq<Seq<char>>) -> Seq<char>
    decreases bs.len(),
{
    if bs.len() == 0 {
        Seq::empty()
    } else {
        lookups(bs.drop_last(), lits) + lookup_stmt(bs.last(), lits[bs.len() - 1])
    }
}

/// The accessors of all bindings, in order.
pub open spec fn accessors(bs: Seq<BindingView>) -> Seq<char>
    decreases bs.len(),
{
    if bs.len() == 0 {
        Seq::empty()
    } else {
        accessors(bs.drop_last()) + accessor(bs.last())
    }
}

/// Items separated by `", "`.
pub open spec fn comma_list(items: Seq<Seq<char>>) -> Seq<char>
    decreases items.len(),
{
    if items.len() == 0 {
        Seq::empty()
    } else if items.len() == 1 {
        items[0]
    } else {
        comma_list(items.drop_last()) + ", "@ + items.last()
    }
}

/// Items between angle brackets, or nothing when there are none.
pub open spec fn angle_list(items: Seq<Seq<char>>) -> Seq<char> {
    if items.len() == 0 {
        Seq::empty()
    } else {
        "<"@ + comma_list(items) + ">"@
    }
}

pub open spec fn param_decls(ps: Seq<GenericParam>) -> Seq<Seq<char>> {
    ps.map_values(|p: GenericParam| p.decl@)
}

pub open spec fn param_names(ps: Seq<GenericParam>) -> Seq<Seq<char>> {
    ps.map_values(|p: GenericParam| p.name@)
}

/// `impl` with the type's parameter declarations.
pub open spec fn impl_head(def: TypeDef) -> Seq<char> {
    "impl"@ + angle_list(param_decls(def.params@))
}

/// The type applied to its own parameters.
pub open spec fn self_type(def: TypeDef) -> Seq<char> {
    def.name@ + angle_list(param_names(def.params@))
}

pub open spec fn where_text(w: Option<String>) -> Seq<char> {
    match w {
        Some(p) => " where "@ + p@,
        None => Seq::empty(),
    }
}

/// The signature line of `finish`.
pub open spec fn finish_open() -> Seq<char> {
    "    fn finish(&mut self, instance: &::wasmer::Instance) -> Result<(), ::wasmer::HostEnvInitError> {\n"@
}

/// The success that ends `finish`.
pub open spec fn finish_close() -> Seq<char> {
    "        Ok(())\n    }\n"@
}

/// The `finish` method: every lookup in order, then success.
pub open spec fn finish_fn(bs: Seq<BindingView>, lits: Seq<Seq<char>>) -> Seq<char> {
    finish_open() + lookups(bs, lits) + finish_close()
}

/// The `free` method, which does nothing for any binding.
pub open spec fn free_fn() -> Seq<char> {
    "\n    fn free(&mut self) {\n    }\n"@
}

/// The impl of the environment trait for the type.
pub open spec fn trait_impl(def: TypeDef, bs: Seq<BindingView>, lits: Seq<Seq<char>>) -> Seq<char> {
    impl_head(def) + " ::wasmer::WasmerEnv for "@ + self_type(def) + where_text(def.where_clause)
        + " {\n"@ + finish_fn(bs, lits) + free_fn() + "}\n"@
}

/// The inherent impl holding the accessors.
pub open spec fn helper_impl(def: TypeDef, bs: Seq<BindingView>) -> Seq<char> {
    impl_head(def) + " "@ + self_type(def) + where_text(def.where_clause) + " {\n"@ + accessors(bs)
        + "}\n"@
}

/// The whole output for a type, its bindings and their key literals.
pub open spec fn expansion_text(def: TypeDef, bs: Seq<BindingView>, lits: Seq<Seq<char>>) -> Seq<char> {
    trait_impl(def, bs, lits) + "\n"@ + helper_impl(def, bs)
}

/// The output that stands in for a type that failed: `finish` succeeds at
/// once and `free` does nothing.
pub open spec fn fallback_text(def: TypeDef) -> Seq<char> {
    trait_impl(def, Seq::empty(), Seq::empty())
}

/// The lookup statements of one binding under the key literal `lit`.
pub fn lookup_line(b: &Binding, lit: &String) -> (r: String)
    ensures
        r@ == lookup_stmt(b@, lit@),
{
    let mut out = String::from_str("        let ");
    out.append(b.field.as_str());
    out.append(": ");
    out.append(b.inner.as_str());
    out.append(" = instance.exports.get_with_generics(");
    out.append(lit.as_str());
    out.append(")?;\n        self.");
    out.append(b.field.as_str());
    out.append(".initialize(");
    out.append(b.field.as_str());
    out.append(");\n");
    out
}

fn accessor_text(b: &Binding) -> (r: String)
    ensures
        r@ == accessor(b@),
{
    let mut out = String::from_str("    pub fn ");
    out.append(b.field.as_str());
    out.append("_ref(&self) -> &");
    out.append(b.inner.as_str());
    out.append(" {\n        unsafe { self.");
    out.append(b.field.as_str());
    out.append(".get_unchecked() }\n    }\n");
    out
}

/// The lookup statements of the bindings, in their order, binding `i` under
/// key literal `lits[i]`.
pub fn lookups_text(bs: &Vec<Binding>, lits: &Vec<String>) -> (r: String)
    requires
        lits@.len() == bs@.len(),
    ensures
        r@ == lookups(views(bs@), texts(lits@)),
{
    let mut out = String::new();
    let mut i: usize = 0;
    while i < bs.len()
        invariant
            i <= bs@.len(),
            lits@.len() == bs@.len(),
            out@ == lookups(views(bs@.subrange(0, i as int)), texts(lits@)),
        decreases bs@.len() - i,
    {
        let s = lookup_line(&bs[i], &lits[i]);
        out.append(s.as_str());
        proof {
            assert(views(bs@.subrange(0, i + 1)).drop_last() =~= views(bs@.subrange(0, i as int)));
        }
        i = i + 1;
    }
    assert(bs@.subrange(0, bs@.len() as int) =~= bs@);
    out
}

/// The accessors of the bindings, in their order.
pub fn accessors_text(bs: &Vec<Binding>) -> (r: String)
    ensures
        r@ == accessors(views(bs@)),
{
    let mut out = String::new();
    let mut i: usize = 0;
    while i < bs.len()
        invariant
            i <= bs@.len(),
            out@ == accessors(views(bs@.subrange(0, i as int))),
        decreases bs@.len() - i,
    {
        let s = accessor_text(&bs[i]);
        out.append(s.as_str());
        proof {
            assert(views(bs@.subrange(0, i + 1)).drop_last() =~= views(bs@.subrange(0, i as int)));
        }
        i = i + 1;
    }
    assert(bs@.subrange(0, bs@.len() as int) =~= bs@);
    out
}

fn comma_list_text(ps: &Vec<GenericParam>, decls: bool) -> (r: String)
    ensures
        r@ == comma_list(if decls { param_decls(ps@) } else { param_names(ps@) }),
{
    let ghost items = if decls { param_decls(ps@) } else { param_names(ps@) };
    let mut out = String::new();
    let mut i: usize = 0;
    while i < ps.len()
        invariant
            i <= ps@.len(),
            items.len() == ps@.len(),
            items == (if decls { param_decls(ps@) } else { param_names(ps@) }),
            out@ == comma_list(items.subrange(0, i as int)),
        decreases ps@.len() - i,
    {
        let item = if decls { ps[i].decl.as_str() } else { ps[i].name.as_str() };
        assert(items.subrange(0, i + 1).drop_last() =~= items.subrange(0, i as int));
        if i > 0 {
            out.append(", ");
        } else {
            assert(out@ =~= Seq::<char>::empty());
        }
        out.append(item);
        i = i + 1;
    }
    assert(items.subrange(0, items.len() as int) =~= items);
    out
}

fn angle_list_text(ps: &Vec<GenericParam>, decls: bool) -> (r: String)
    ensures
        r@ == angle_list(if decls { param_decls(ps@) } else { param_names(ps@) }),
{
    if ps.len() == 0 {
        return String::new();
    }
    let list = comma_list_text(ps, decls);
    let mut out = String::from_str("<");
    out.append(list.as_str());
    out.append(">");
    out
}

/// Appends `impl<..>`, the given middle, the applied type and the `where`
/// clause, then the opening brace.
fn impl_header(def: &TypeDef, middle: &str) -> (r: String)
    ensures
        r@ == impl_head(*def) + middle@ + self_type(*def) + where_text(def.where_clause) + " {\n"@,
{
    let decls = angle_list_text(&def.params, true);
    let names = angle_list_text(&def.params, false);
    let mut out = String::from_str("impl");
    out.append(decls.as_str());
    out.append(middle);
    out.append(def.name.as_str());
    out.append(names.as_str());
    match &def.where_clause {
        Some(p) => {
            out.append(" where ");
            out.append(p.as_str());
        },
        None => {
            assert(out@ + Seq::<char>::empty() =~= out@);
        },
    }
    out.append(" {\n");
    out
}

/// The impl of the environment trait for a type with the given bindings.
pub fn trait_impl_text(def: &TypeDef, bs: &Vec<Binding>, lits: &Vec<String>) -> (r: String)
    requires
        lits@.len() == bs@.len(),
    ensures
        r@ == trait_impl(*def, views(bs@), texts(lits@)),
{
    let mut out = impl_header(def, " ::wasmer::WasmerEnv for ");
    let body = lookups_text(bs, lits);
    out.append(
        "    fn finish(&mut self, instance: &::wasmer::Instance) -> Result<(), ::wasmer::HostEnvInitError> {\n",
    );
    out.append(body.as_str());
    out.append("        Ok(())\n    }\n");
    out.append("\n    fn free(&mut self) {\n    }\n");
    out.append("}\n");
    proof {
        let v = views(bs@);
        let a = impl_head(*def) + " ::wasmer::WasmerEnv for "@ + self_type(*def) + where_text(
            def.where_clause,
        ) + " {\n"@;
        assert(out@ =~= a + finish_fn(v, texts(lits@)) + free_fn() + "}\n"@);
    }
    out
}

/// The inherent impl holding the accessors of the given bindings.
pub fn helper_impl_text(def: &TypeDef, bs: &Vec<Binding>) -> (r: String)
    ensures
        r@ == helper_impl(*def, views(bs@)),
{
    let mut out = impl_header(def, " ");
    let body = accessors_text(bs);
    out.append(body.as_str());
    out.append("}\n");
    out
}

/// The output for a type whose bindings are all valid.
pub fn expansion(def: &TypeDef, bs: &Vec<Binding>, lits: &Vec<String>) -> (r: String)
    requires
        lits@.len() == bs@.len(),
    ensures
        r@ == expansion_text(*def, views(bs@), texts(lits@)),
{
    let mut out = trait_impl_text(def, bs, lits);
    let helpers = helper_impl_text(def, bs);
    out.append("\n");
    out.append(helpers.as_str());
    out
}

/// The no-op impl that stands in for a type whose generation failed.
pub fn fallback(def: &TypeDef) -> (r: String)
    ensures
        r@ == fallback_text(*def),
{
    let none: Vec<Binding> = Vec::new();
    let no_lits: Vec<String> = Vec::new();
    proof {
        assert(views(none@) =~= Seq::<BindingView>::empty());
        assert(texts(no_lits@) =~= Seq::<Seq<char>>::empty());
    }
    trait_impl_text(def, &none, &no_lits)
}

} // verus!
