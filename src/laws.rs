//! Properties of generation as a whole, over the specifications of `generate`
//! and `collect_bindings`.
use vstd::prelude::*;
use crate::binding::BindingView;
use crate::directive::{
    directive_of, field_directive, first_marker, is_close_paren, is_equals, is_marker,
    is_open_paren, is_word, Directive,
};
use crate::literal::quoted_all;
use crate::schema::{Annotation, FieldDef, Token, TypeDef};
use crate::shape::wrapped_type;
use crate::synth::{
    accessor, accessors, expansion_text, fallback_text, finish_close, finish_fn, finish_open,
    helper_impl, lookup_stmt, lookups,
};
use crate::{
    bindings_of, bindings_upto, field_step, generates, lemma_error_persists, outcome, GenError,
};

verus! {

/// The binding that a field yields on its own, if any.
pub open spec fn field_binding(f: FieldDef) -> Option<BindingView> {
    match field_step(f, 0) {
        Ok(Some(b)) => Some(b),
        _ => None,
    }
}

/// The present entries of a list of options, in order.
pub open spec fn somes(os: Seq<Option<BindingView>>) -> Seq<BindingView>
    decreases os.len(),
{
    if os.len() == 0 {
        Seq::empty()
    } else {
        match os.last() {
            Some(b) => somes(os.drop_last()).push(b),
            None => somes(os.drop_last()),
        }
    }
}

/// Texts joined one after another.
pub open spec fn concat_all(ps: Seq<Seq<char>>) -> Seq<char>
    decreases ps.len(),
{
    if ps.len() == 0 {
        Seq::empty()
    } else {
        concat_all(ps.drop_last()) + ps.last()
    }
}

proof fn lemma_no_marker_from(anns: Seq<Annotation>, i: int)
    requires
        0 <= i,
        forall|j: int| 0 <= j < anns.len() ==> !is_marker(#[trigger] anns[j]),
    ensures
        first_marker(anns, i) is None,
    decreases anns.len() - i,
{
    if i < anns.len() {
        lemma_no_marker_from(anns, i + 1);
    }
}

proof fn lemma_unmarked_prefix(fs: Seq<FieldDef>, n: int)
    requires
        0 <= n <= fs.len(),
        forall|i: int, j: int|
            0 <= i < fs.len() && 0 <= j < fs[i].annotations@.len() ==> !is_marker(
                #[trigger] fs[i].annotations@[j],
            ),
    ensures
        bindings_upto(fs, n) == Ok::<Seq<BindingView>, GenError>(Seq::empty()),
    decreases n,
{
    if n > 0 {
        lemma_unmarked_prefix(fs, n - 1);
        let anns = fs[n - 1].annotations@;
        assert forall|j: int| 0 <= j < anns.len() implies !is_marker(#[trigger] anns[j]) by {
            assert(!is_marker(fs[n - 1].annotations@[j]));
        }
        lemma_no_marker_from(anns, 0);
    }
}

/// A struct none of whose fields carries the binding marker always generates,
/// and only one output is correct for it: `finish` holds no lookup and only
/// succeeds, `free` does nothing, no accessor is written, and the trait impl
/// is the no-op fallback itself.
pub proof fn law_unmarked_struct(def: TypeDef, r: Result<Seq<char>, GenError>)
    requires
        def.data is Named,
        forall|i: int, j: int|
            0 <= i < def.data->Named_0@.len() && 0 <= j
                < def.data->Named_0@[i].annotations@.len() ==> !is_marker(
                #[trigger] def.data->Named_0@[i].annotations@[j],
            ),
    ensures
        generates(def, Ok(fallback_text(def) + "\n"@ + helper_impl(def, Seq::empty()))),
        generates(def, r) ==> r == Ok::<Seq<char>, GenError>(
            fallback_text(def) + "\n"@ + helper_impl(def, Seq::empty()),
        ),
        finish_fn(Seq::empty(), Seq::empty()) == finish_open() + finish_close(),
        accessors(Seq::empty()) == Seq::<char>::empty(),
{
    let fs = def.data->Named_0@;
    lemma_unmarked_prefix(fs, fs.len() as int);
    let none = Seq::<BindingView>::empty();
    assert(outcome(def) == Ok::<Seq<BindingView>, GenError>(none));
    assert(quoted_all(none, Seq::empty()));
    assert(expansion_text(def, none, Seq::empty()) == fallback_text(def) + "\n"@ + helper_impl(
        def,
        none,
    ));
    assert(finish_open() + Seq::<char>::empty() =~= finish_open());
    let out = fallback_text(def) + "\n"@ + helper_impl(def, none);
    assert(quoted_all(outcome(def)->Ok_0, Seq::empty()));
    assert(Ok::<Seq<char>, GenError>(out)->Ok_0 == expansion_text(
        def,
        outcome(def)->Ok_0,
        Seq::empty(),
    ));
}

/// A marked field of the wrapper shape is bound under the directive's
/// explicit name when it gives one, else under the field's identifier exactly;
/// `generates` asks that its lookup key be a literal spelling that name.
pub proof fn law_export_name(f: FieldDef, i: int)
    requires
        field_directive(f.annotations@) matches Ok(Some(_)),
        wrapped_type(f.ty) is Ok,
    ensures
        field_step(f, i) == Ok::<Option<BindingView>, GenError>(
            Some(
                BindingView {
                    field: f.name@,
                    inner: wrapped_type(f.ty)->Ok_0,
                    export: match field_directive(f.annotations@)->Ok_0->Some_0->name {
                        Some(n) => n@,
                        None => f.name@,
                    },
                },
            ),
        ),
{
}

/// A marked field whose type lacks the wrapper shape makes generation fail,
/// with no output; when every earlier field is sound, the error is the shape
/// error of that field.
pub proof fn law_bad_shape_fails(def: TypeDef, i: int, r: Result<Seq<char>, GenError>)
    requires
        def.data is Named,
        0 <= i < def.data->Named_0@.len(),
        field_directive(def.data->Named_0@[i].annotations@) matches Ok(Some(_)),
        wrapped_type(def.data->Named_0@[i].ty) is Err,
        generates(def, r),
    ensures
        r is Err,
        bindings_upto(def.data->Named_0@, i) is Ok ==> r == Err::<Seq<char>, GenError>(
            GenError::WrapperShape {
                field: i as usize,
                mismatch: wrapped_type(def.data->Named_0@[i].ty)->Err_0,
            },
        ),
{
    let fs = def.data->Named_0@;
    if bindings_upto(fs, i) is Err {
        lemma_error_persists(fs, i, fs.len() as int);
    } else {
        assert(bindings_upto(fs, i + 1) is Err);
        lemma_error_persists(fs, i + 1, fs.len() as int);
    }
}

/// Generation depends on the definition alone: two runs on the same
/// definition both succeed or fail with the same error, and two successful
/// outputs are the same text over the same bindings, differing at most in how
/// each key literal is spelled (each spells the same export name).
pub proof fn law_deterministic(
    a: TypeDef,
    b: TypeDef,
    r1: Result<Seq<char>, GenError>,
    r2: Result<Seq<char>, GenError>,
)
    requires
        a == b,
        generates(a, r1),
        generates(b, r2),
    ensures
        r1 is Ok <==> r2 is Ok,
        r1 is Err ==> r1 == r2,
        r1 is Ok ==> exists|bs: Seq<BindingView>, l1: Seq<Seq<char>>, l2: Seq<Seq<char>>|
            quoted_all(bs, l1) && quoted_all(bs, l2) && r1->Ok_0 == #[trigger] expansion_text(
                a,
                bs,
                l1,
            ) && r2->Ok_0 == #[trigger] expansion_text(a, bs, l2),
{
    if r1 is Ok {
        let bs = outcome(a)->Ok_0;
        let l1 = choose|l: Seq<Seq<char>>|
            quoted_all(bs, l) && r1->Ok_0 == #[trigger] expansion_text(a, bs, l);
        let l2 = choose|l: Seq<Seq<char>>|
            quoted_all(bs, l) && r2->Ok_0 == #[trigger] expansion_text(b, bs, l);
        assert(quoted_all(bs, l1) && quoted_all(bs, l2) && r1->Ok_0 == expansion_text(a, bs, l1)
            && r2->Ok_0 == expansion_text(a, bs, l2));
    }
}

/// `(export)`.
pub open spec fn bare_form(t: Seq<Token>) -> bool {
    &&& t.len() == 3
    &&& is_open_paren(t[0])
    &&& is_word(t[1], "export"@)
    &&& is_close_paren(t[2])
}

/// `(export())`.
pub open spec fn empty_form(t: Seq<Token>) -> bool {
    &&& t.len() == 5
    &&& is_open_paren(t[0])
    &&& is_word(t[1], "export"@)
    &&& is_open_paren(t[2])
    &&& is_close_paren(t[3])
    &&& is_close_paren(t[4])
}

/// `(export(name = "s"))`.
pub open spec fn named_form(t: Seq<Token>) -> bool {
    &&& t.len() == 8
    &&& is_open_paren(t[0])
    &&& is_word(t[1], "export"@)
    &&& is_open_paren(t[2])
    &&& is_word(t[3], "name"@)
    &&& is_equals(t[4])
    &&& t[5] is Str
    &&& is_close_paren(t[6])
    &&& is_close_paren(t[7])
}

/// A marker's content is accepted exactly in the three forms `(export)`,
/// `(export())` and `(export(name = "s"))`; the first two give no name, the
/// third gives `s`.
pub proof fn law_directive_forms(t: Seq<Token>)
    ensures
        directive_of(t) is Ok <==> bare_form(t) || empty_form(t) || named_form(t),
        bare_form(t) || empty_form(t) ==> directive_of(t) matches Ok(
            Directive::Export { name: None },
        ),
        named_form(t) ==> directive_of(t) == Ok::<Directive, crate::directive::SyntaxError>(
            Directive::Export { name: Some(t[5]->Str_0) },
        ),
{
}

proof fn lemma_prefix_ok(fs: Seq<FieldDef>, n: int)
    requires
        0 <= n <= fs.len(),
    ensures
        bindings_upto(fs, n) is Ok <==> forall|k: int| 0 <= k < n ==> (#[trigger] field_step(fs[k], k)) is Ok,
    decreases n,
{
    if n > 0 {
        lemma_prefix_ok(fs, n - 1);
    }
}

proof fn lemma_bindings_by_field(fs: Seq<FieldDef>, n: int)
    requires
        0 <= n <= fs.len(),
        bindings_upto(fs, n) is Ok,
    ensures
        bindings_upto(fs, n)->Ok_0 == somes(
            fs.map_values(|f: FieldDef| field_binding(f)).subrange(0, n),
        ),
    decreases n,
{
    let os = fs.map_values(|f: FieldDef| field_binding(f));
    if n > 0 {
        assert(bindings_upto(fs, n - 1) is Ok);
        lemma_bindings_by_field(fs, n - 1);
        assert(os.subrange(0, n).drop_last() =~= os.subrange(0, n - 1));
    } else {
        assert(os.subrange(0, 0) =~= Seq::<Option<BindingView>>::empty());
    }
}

/// The bindings, and with them the lookups of `finish` and the accessors, are
/// the fields' own in declaration order. So reordering the fields by a
/// permutation `p` (with inverse `q`) keeps success and failure, and reorders
/// the bindings the same way: the new list holds the bindings of old fields
/// `p[0]`, `p[1]`, ... in that order.
pub proof fn law_reorder_fields(fs: Seq<FieldDef>, gs: Seq<FieldDef>, p: Seq<int>, q: Seq<int>)
    requires
        gs.len() == fs.len(),
        p.len() == fs.len(),
        q.len() == fs.len(),
        forall|k: int| 0 <= k < p.len() ==> 0 <= #[trigger] p[k] < fs.len() && gs[k] == fs[p[k]],
        forall|j: int| 0 <= j < q.len() ==> 0 <= #[trigger] q[j] < fs.len() && p[q[j]] == j,
    ensures
        bindings_of(gs) is Ok <==> bindings_of(fs) is Ok,
        bindings_of(fs) is Ok ==> bindings_of(fs)->Ok_0 == somes(
            fs.map_values(|f: FieldDef| field_binding(f)),
        ),
        bindings_of(fs) is Ok ==> bindings_of(gs)->Ok_0 == somes(
            Seq::new(gs.len(), |k: int| field_binding(fs[p[k]])),
        ),
{
    let n = fs.len() as int;
    lemma_prefix_ok(fs, n);
    lemma_prefix_ok(gs, n);
    if bindings_of(fs) is Ok {
        assert forall|k: int| 0 <= k < n implies (#[trigger] field_step(gs[k], k)) is Ok by {
            assert(field_step(fs[p[k]], p[k]) is Ok);
        }
        lemma_bindings_by_field(fs, n);
        lemma_bindings_by_field(gs, n);
        let os = fs.map_values(|f: FieldDef| field_binding(f));
        let ps = gs.map_values(|f: FieldDef| field_binding(f));
        assert(os.subrange(0, n) =~= os);
        assert(ps.subrange(0, n) =~= Seq::new(gs.len(), |k: int| field_binding(fs[p[k]])));
    }
    if bindings_of(gs) is Ok {
        assert forall|j: int| 0 <= j < n implies (#[trigger] field_step(fs[j], j)) is Ok by {
            assert(field_step(gs[q[j]], q[j]) is Ok);
        }
    }
}

/// In the output, binding `i`'s lookup (under key `lits[i]`) and its accessor
/// stand in binding order, each unchanged.
pub proof fn law_text_in_binding_order(bs: Seq<BindingView>, lits: Seq<Seq<char>>)
    requires
        lits.len() == bs.len(),
    ensures
        lookups(bs, lits) == concat_all(Seq::new(bs.len(), |i: int| lookup_stmt(bs[i], lits[i]))),
        accessors(bs) == concat_all(bs.map_values(|b: BindingView| accessor(b))),
    decreases bs.len(),
{
    if bs.len() > 0 {
        let n = bs.len() as int;
        law_text_in_binding_order(bs.drop_last(), lits.drop_last());
        assert(Seq::new(n as nat, |i: int| lookup_stmt(bs[i], lits[i])).drop_last() =~= Seq::new(
            (n - 1) as nat,
            |i: int| lookup_stmt(bs.drop_last()[i], lits.drop_last()[i]),
        ));
        assert(bs.map_values(|b: BindingView| accessor(b)).drop_last() =~= bs.drop_last().map_values(
            |b: BindingView| accessor(b),
        ));
        lemma_lookups_ignore_extra(bs.drop_last(), lits.drop_last(), lits);
    } else {
        assert(Seq::new(0, |i: int| lookup_stmt(bs[i], lits[i])) =~= Seq::<Seq<char>>::empty());
        assert(bs.map_values(|b: BindingView| accessor(b)) =~= Seq::<Seq<char>>::empty());
    }
}

proof fn lemma_lookups_ignore_extra(bs: Seq<BindingView>, l1: Seq<Seq<char>>, l2: Seq<Seq<char>>)
    requires
        bs.len() <= l1.len(),
        bs.len() <= l2.len(),
        forall|i: int| 0 <= i < bs.len() ==> l1[i] == l2[i],
    ensures
        lookups(bs, l1) == lookups(bs, l2),
    decreases bs.len(),
{
    if bs.len() > 0 {
        lemma_lookups_ignore_extra(bs.drop_last(), l1, l2);
    }
}

} // verus!
