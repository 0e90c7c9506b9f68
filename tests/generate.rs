use wasmer_derive::binding::Binding;
use wasmer_derive::directive::{find_directive, parse_directive, Directive, SyntaxError, SyntaxProblem};
use wasmer_derive::schema::{
    Annotation, DataKind, Delimiter, FieldDef, GenericArg, GenericParam, PathSegment, SegmentArgs,
    Token, TypeDef, TypeExpr,
};
use wasmer_derive::shape::{inner_type, Mismatch};
use wasmer_derive::literal::quote_exports;
use wasmer_derive::synth::{fallback, lookup_line, lookups_text};
use wasmer_derive::{collect_bindings, generate, GenError};

fn s(x: &str) -> String {
    x.to_string()
}

fn ident(x: &str) -> Token {
    Token::Ident(s(x))
}

fn open() -> Token {
    Token::Open(Delimiter::Paren)
}

fn close() -> Token {
    Token::Close(Delimiter::Paren)
}

fn plain(name: &str) -> TypeExpr {
    TypeExpr::Path(vec![PathSegment { ident: s(name), args: SegmentArgs::Plain }])
}

fn lazy(inner: &str) -> TypeExpr {
    TypeExpr::Path(vec![PathSegment {
        ident: s("LazyInit"),
        args: SegmentArgs::Angle(vec![GenericArg::Path(vec![s(inner)])]),
    }])
}

fn marker(tokens: Vec<Token>) -> Annotation {
    Annotation { path: vec![s("wasmer")], tokens }
}

fn export() -> Annotation {
    marker(vec![open(), ident("export"), close()])
}

fn export_named(name: &str) -> Annotation {
    marker(vec![
        open(),
        ident("export"),
        open(),
        ident("name"),
        Token::Punct('='),
        Token::Str(s(name)),
        close(),
        close(),
    ])
}

fn field(name: &str, ty: TypeExpr, annotations: Vec<Annotation>) -> FieldDef {
    FieldDef { name: s(name), ty, annotations }
}

fn def(name: &str, fields: Vec<FieldDef>) -> TypeDef {
    TypeDef { name: s(name), params: vec![], where_clause: None, data: DataKind::Named(fields) }
}

const FINISH_OPEN: &str = "    fn finish(&mut self, instance: &::wasmer::Instance) -> Result<(), ::wasmer::HostEnvInitError> {\n";
const FINISH_CLOSE: &str = "        Ok(())\n    }\n";
const FREE: &str = "\n    fn free(&mut self) {\n    }\n";

fn lookup(field: &str, inner: &str, key: &str) -> String {
    format!(
        "        let {f}: {i} = instance.exports.get_with_generics({k})?;\n        self.{f}.initialize({f});\n",
        f = field,
        i = inner,
        k = key
    )
}

fn accessor(field: &str, inner: &str) -> String {
    format!(
        "    pub fn {f}_ref(&self) -> &{i} {{\n        unsafe {{ self.{f}.get_unchecked() }}\n    }}\n",
        f = field,
        i = inner
    )
}

fn expected(head: &str, ty: &str, lookups: &str, accessors: &str) -> String {
    format!(
        "{h} ::wasmer::WasmerEnv for {t} {{\n{fo}{l}{fc}{fr}}}\n\n{h} {t} {{\n{a}}}\n",
        h = head,
        t = ty,
        fo = FINISH_OPEN,
        l = lookups,
        fc = FINISH_CLOSE,
        fr = FREE,
        a = accessors
    )
}

#[test]
fn two_exports_and_an_inert_field() {
    let d = def(
        "Env",
        vec![
            field("a", lazy("A"), vec![export()]),
            field("b", lazy("B"), vec![export_named("b_alias")]),
            field("c", plain("u32"), vec![]),
        ],
    );
    let out = generate(&d).unwrap();
    let lookups = lookup("a", "A", "\"a\"") + &lookup("b", "B", "\"b_alias\"");
    let accessors = accessor("a", "A") + &accessor("b", "B");
    assert_eq!(out, expected("impl", "Env", &lookups, &accessors));
    assert_eq!(out.matches("get_with_generics").count(), 2);
    assert!(out.find("\"a\"").unwrap() < out.find("\"b_alias\"").unwrap());
    assert!(!out.contains("c_ref"));
    assert!(!out.contains("self.c"));
}

#[test]
fn unmarked_fields_generate_the_noop_impl() {
    let d = def(
        "Env",
        vec![
            field("x", plain("u32"), vec![]),
            field("y", plain("String"), vec![Annotation { path: vec![s("doc")], tokens: vec![] }]),
        ],
    );
    let out = generate(&d).unwrap();
    assert_eq!(out, expected("impl", "Env", "", ""));
    assert_eq!(fallback(&d) + "\nimpl Env {\n}\n", out);
}

#[test]
fn empty_struct_generates_the_noop_impl() {
    let d = def("Empty", vec![]);
    assert_eq!(generate(&d).unwrap(), expected("impl", "Empty", "", ""));
}

#[test]
fn default_export_name_is_the_field_identifier() {
    let d = def("Env", vec![field("memory", lazy("Memory"), vec![export()])]);
    let out = generate(&d).unwrap();
    assert!(out.contains("let memory: Memory = instance.exports.get_with_generics(\"memory\")?;"));
    assert!(out.contains("pub fn memory_ref(&self) -> &Memory {"));
}

#[test]
fn empty_argument_list_uses_the_field_identifier() {
    let d = def(
        "Env",
        vec![field("memory", lazy("Memory"), vec![marker(vec![open(), ident("export"), open(), close(), close()])])],
    );
    let out = generate(&d).unwrap();
    assert!(out.contains("get_with_generics(\"memory\")"));
}

#[test]
fn explicit_name_is_quoted_as_a_literal() {
    let d = def("Env", vec![field("f", lazy("F"), vec![export_named("say \"hi\"")])]);
    let out = generate(&d).unwrap();
    assert!(out.contains("get_with_generics(\"say \\\"hi\\\"\")?;"));
}

#[test]
fn first_marker_wins() {
    let d = def(
        "Env",
        vec![field("f", lazy("F"), vec![export_named("first"), export_named("second"), marker(vec![])])],
    );
    let out = generate(&d).unwrap();
    assert!(out.contains("\"first\""));
    assert!(!out.contains("\"second\""));
}

#[test]
fn qualified_paths_are_not_the_marker() {
    let other = Annotation { path: vec![s("x"), s("wasmer")], tokens: vec![open(), ident("export"), close()] };
    let d = def("Env", vec![field("f", lazy("F"), vec![other])]);
    assert_eq!(generate(&d).unwrap(), expected("impl", "Env", "", ""));
}

#[test]
fn inner_type_keeps_its_own_arguments_and_drops_its_module_path() {
    let ty = TypeExpr::Path(vec![
        PathSegment { ident: s("wasmer"), args: SegmentArgs::Plain },
        PathSegment {
            ident: s("LazyInit"),
            args: SegmentArgs::Angle(vec![GenericArg::Path(vec![s("wasmer"), s("NativeFunc<i32, i32>")])]),
        },
    ]);
    assert_eq!(inner_type(&ty), Ok(s("NativeFunc<i32, i32>")));
}

#[test]
fn shape_errors() {
    let one = |args: SegmentArgs| TypeExpr::Path(vec![PathSegment { ident: s("LazyInit"), args }]);
    assert_eq!(inner_type(&TypeExpr::Other), Err(Mismatch::UnrecognizedFieldType));
    assert_eq!(inner_type(&TypeExpr::Path(vec![])), Err(Mismatch::UnrecognizedFieldType));
    assert_eq!(inner_type(&plain("Memory")), Err(Mismatch::WrongWrapper));
    assert_eq!(inner_type(&one(SegmentArgs::Plain)), Err(Mismatch::MissingGenericArgument));
    assert_eq!(inner_type(&one(SegmentArgs::Paren)), Err(Mismatch::MissingGenericArgument));
    assert_eq!(inner_type(&one(SegmentArgs::Angle(vec![]))), Err(Mismatch::ArgumentCount));
    let two = vec![GenericArg::Path(vec![s("A")]), GenericArg::Path(vec![s("B")])];
    assert_eq!(inner_type(&one(SegmentArgs::Angle(two))), Err(Mismatch::ArgumentCount));
    assert_eq!(inner_type(&one(SegmentArgs::Angle(vec![GenericArg::Other]))), Err(Mismatch::UnrecognizedArgument));
    assert_eq!(
        inner_type(&one(SegmentArgs::Angle(vec![GenericArg::Path(vec![])]))),
        Err(Mismatch::UnrecognizedArgument)
    );
}

#[test]
fn bad_shape_fails_generation() {
    let d = def(
        "Env",
        vec![field("ok", lazy("A"), vec![export()]), field("bad", plain("Memory"), vec![export()])],
    );
    assert_eq!(generate(&d), Err(GenError::WrapperShape { field: 1, mismatch: Mismatch::WrongWrapper }));
    let fields = vec![field("bad", lazy("A"), vec![]), field("worse", TypeExpr::Other, vec![export()])];
    assert_eq!(
        collect_bindings(&fields).unwrap_err(),
        GenError::WrapperShape { field: 1, mismatch: Mismatch::UnrecognizedFieldType }
    );
}

#[test]
fn first_failing_field_is_reported() {
    let d = def(
        "Env",
        vec![
            field("a", plain("A"), vec![export()]),
            field("b", lazy("B"), vec![marker(vec![open(), ident("import"), close()])]),
        ],
    );
    assert_eq!(generate(&d), Err(GenError::WrapperShape { field: 0, mismatch: Mismatch::WrongWrapper }));
}

#[test]
fn annotation_errors_carry_field_and_annotation() {
    let doc = Annotation { path: vec![s("doc")], tokens: vec![] };
    let d = def(
        "Env",
        vec![field("a", lazy("A"), vec![doc, marker(vec![open(), ident("import"), close()])])],
    );
    assert_eq!(
        generate(&d),
        Err(GenError::AnnotationSyntax {
            field: 0,
            annotation: 1,
            error: SyntaxError { position: 1, problem: SyntaxProblem::ExpectedExport },
        })
    );
}

#[test]
fn directive_grammar() {
    let err = |position: usize, problem: SyntaxProblem| Err(SyntaxError { position, problem });
    let name = |r: Result<Directive, SyntaxError>| match r {
        Ok(Directive::Export { name }) => Ok(name),
        Err(e) => Err(e),
    };
    assert_eq!(name(parse_directive(&vec![open(), ident("export"), close()])), Ok(None));
    assert_eq!(name(parse_directive(&vec![])), err(0, SyntaxProblem::ExpectedOpenParen));
    assert_eq!(name(parse_directive(&vec![ident("export")])), err(0, SyntaxProblem::ExpectedOpenParen));
    assert_eq!(name(parse_directive(&vec![open()])), err(1, SyntaxProblem::ExpectedExport));
    assert_eq!(name(parse_directive(&vec![open(), ident("export")])), err(2, SyntaxProblem::ExpectedCloseParen));
    assert_eq!(
        name(parse_directive(&vec![open(), ident("export"), close(), close()])),
        err(3, SyntaxProblem::TrailingTokens)
    );
    assert_eq!(
        name(parse_directive(&vec![open(), ident("export"), Token::Punct(',')])),
        err(2, SyntaxProblem::ExpectedCloseParen)
    );
    assert_eq!(
        name(parse_directive(&vec![open(), ident("export"), open(), ident("alias"), close(), close()])),
        err(3, SyntaxProblem::ExpectedName)
    );
    assert_eq!(
        name(parse_directive(&vec![open(), ident("export"), open(), ident("name"), Token::Str(s("x"))])),
        err(4, SyntaxProblem::ExpectedEquals)
    );
    assert_eq!(
        name(parse_directive(&vec![
            open(),
            ident("export"),
            open(),
            ident("name"),
            Token::Punct('='),
            Token::Literal(s("3")),
        ])),
        err(5, SyntaxProblem::ExpectedString)
    );
    assert_eq!(
        name(parse_directive(&vec![open(), ident("export"), open(), ident("name"), Token::Punct('='), Token::Str(s("x"))])),
        err(6, SyntaxProblem::ExpectedCloseParen)
    );
    assert_eq!(
        name(parse_directive(&vec![
            open(),
            ident("export"),
            open(),
            ident("name"),
            Token::Punct('='),
            Token::Str(s("x")),
            close(),
        ])),
        err(7, SyntaxProblem::ExpectedCloseParen)
    );
    assert_eq!(name(parse_directive(&export_named("x").tokens)), Ok(Some(s("x"))));
    let mut long = export_named("x").tokens;
    long.push(ident("extra"));
    assert_eq!(name(parse_directive(&long)), err(8, SyntaxProblem::TrailingTokens));
}

#[test]
fn field_without_marker_has_no_directive() {
    assert!(matches!(find_directive(&vec![]), Ok(None)));
    let doc = Annotation { path: vec![s("doc")], tokens: vec![ident("export")] };
    assert!(matches!(find_directive(&vec![doc]), Ok(None)));
}

#[test]
fn non_named_shapes_are_unsupported() {
    for data in vec![DataKind::Tuple, DataKind::Unit, DataKind::Enum, DataKind::Union] {
        let d = TypeDef { name: s("T"), params: vec![], where_clause: None, data };
        assert_eq!(generate(&d), Err(GenError::UnsupportedShape));
    }
}

#[test]
fn generics_and_where_clause_are_carried() {
    let d = TypeDef {
        name: s("Env"),
        params: vec![
            GenericParam { decl: s("'a"), name: s("'a") },
            GenericParam { decl: s("T: Clone"), name: s("T") },
        ],
        where_clause: Some(s("T: Send")),
        data: DataKind::Named(vec![field("m", lazy("Memory"), vec![export()])]),
    };
    let out = generate(&d).unwrap();
    assert!(out.starts_with("impl<'a, T: Clone> ::wasmer::WasmerEnv for Env<'a, T> where T: Send {\n"));
    assert!(out.contains("\nimpl<'a, T: Clone> Env<'a, T> where T: Send {\n    pub fn m_ref"));
    assert!(fallback(&d).starts_with("impl<'a, T: Clone> ::wasmer::WasmerEnv for Env<'a, T> where T: Send {\n"));
}

#[test]
fn generation_is_deterministic() {
    let d = def(
        "Env",
        vec![field("a", lazy("A"), vec![export()]), field("b", lazy("B"), vec![export_named("bee")])],
    );
    assert_eq!(generate(&d), generate(&d.clone()));
}

#[test]
fn reordering_fields_reorders_lookups() {
    let a = field("a", lazy("A"), vec![export()]);
    let b = field("b", lazy("B"), vec![export_named("bee")]);
    let c = field("c", plain("u8"), vec![]);
    let first = generate(&def("Env", vec![a.clone(), b.clone(), c.clone()])).unwrap();
    let second = generate(&def("Env", vec![c, b, a])).unwrap();
    let la = lookup("a", "A", "\"a\"");
    let lb = lookup("b", "B", "\"bee\"");
    assert!(first.contains(&(la.clone() + &lb)));
    assert!(second.contains(&(lb + &la)));
}

#[test]
fn lookups_follow_binding_order() {
    let bs = vec![
        Binding { field: s("x"), inner: s("X"), export: s("ex") },
        Binding { field: s("y"), inner: s("Y"), export: s("y") },
    ];
    let lits = vec![s("\"ex\""), s("\"y\"")];
    assert_eq!(lookups_text(&bs, &lits), lookup("x", "X", "\"ex\"") + &lookup("y", "Y", "\"y\""));
}

#[test]
fn lookup_line_writes_the_given_key_literal() {
    let b = Binding { field: s("memory"), inner: s("Memory"), export: s("mem") };
    assert_eq!(
        lookup_line(&b, &s("r\"mem\"")),
        "        let memory: Memory = instance.exports.get_with_generics(r\"mem\")?;\n        self.memory.initialize(memory);\n"
    );
}

#[test]
fn export_names_are_quoted() {
    let bs = vec![
        Binding { field: s("a"), inner: s("A"), export: s("alpha") },
        Binding { field: s("b"), inner: s("B"), export: s("two\nlines") },
    ];
    let lits = quote_exports(&bs);
    assert_eq!(lits, vec![s("\"alpha\""), s("\"two\\nlines\"")]);
}
