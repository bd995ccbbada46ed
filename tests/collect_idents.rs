use state_machine_ast::collect::CollectIdents;
use state_machine_ast::ident_set::IdentSet;
use state_machine_ast::syntax::{
    Expr, GenericArgument, Lifetime, LifetimeDef, Path, PathArguments, PathSegment, Type,
    TypeBareFn, TypeParam, TypeParamBound, WherePredicate,
};

fn seg(ident: &str, arguments: PathArguments) -> PathSegment {
    PathSegment { ident: ident.to_string(), arguments }
}

fn bare_path(ident: &str) -> Path {
    Path { global: false, segments: vec![seg(ident, PathArguments::Empty)] }
}

fn name(ident: &str) -> Type {
    Type::Path { qself: None, path: bare_path(ident) }
}

fn lifetime(ident: &str) -> Lifetime {
    Lifetime { ident: ident.to_string() }
}

fn collect<T: CollectIdents>(node: &T) -> Vec<String> {
    let mut idents = IdentSet::new();
    node.collect_idents(&mut idents);
    let mut v = idents.to_vec();
    v.sort();
    v
}

fn strings(items: &[&str]) -> Vec<String> {
    let mut v: Vec<String> = items.iter().map(|s| s.to_string()).collect();
    v.sort();
    v
}

#[test]
fn bare_name_is_collected() {
    assert_eq!(collect(&name("T")), strings(&["T"]));
}

#[test]
fn slice_array_pointer_paren_hold_their_element() {
    assert_eq!(collect(&Type::Slice(Box::new(name("T")))), strings(&["T"]));
    assert_eq!(collect(&Type::Paren(Box::new(name("T")))), strings(&["T"]));
    assert_eq!(collect(&Type::Ptr(Box::new(name("T")))), strings(&["T"]));
    let array = Type::Array { elem: Box::new(name("T")), len: Expr::Path(bare_path("N")) };
    assert_eq!(collect(&array), strings(&["T"]));
}

#[test]
fn reference_holds_region_and_referent() {
    let plain = Type::Reference { lifetime: None, elem: Box::new(name("T")) };
    assert_eq!(collect(&plain), strings(&["T"]));
    let with_region = Type::Reference { lifetime: Some(lifetime("a")), elem: Box::new(name("T")) };
    assert_eq!(collect(&with_region), strings(&["a", "T"]));
}

#[test]
fn pair_holds_both() {
    let pair = Type::Tuple(vec![name("T"), name("U")]);
    assert_eq!(collect(&pair), strings(&["T", "U"]));
}

#[test]
fn repeated_name_is_held_once() {
    let pair = Type::Tuple(vec![name("T"), Type::Slice(Box::new(name("T")))]);
    let mut idents = IdentSet::new();
    pair.collect_idents(&mut idents);
    assert_eq!(idents.len(), 1);
    assert!(idents.contains(&"T".to_string()));
}

#[test]
fn multi_segment_path_holds_only_its_arguments() {
    let path = Path {
        global: false,
        segments: vec![
            seg("a", PathArguments::Empty),
            seg("b", PathArguments::Empty),
            seg("C", PathArguments::AngleBracketed(vec![GenericArgument::Type(name("T"))])),
        ],
    };
    let ty = Type::Path { qself: None, path };
    assert_eq!(collect(&ty), strings(&["T"]));
}

#[test]
fn global_path_is_not_a_parameter() {
    let ty = Type::Path {
        qself: None,
        path: Path { global: true, segments: vec![seg("T", PathArguments::Empty)] },
    };
    assert_eq!(collect(&ty), Vec::<String>::new());
}

#[test]
fn qualified_self_is_searched() {
    let path = Path {
        global: false,
        segments: vec![seg("Trait", PathArguments::Empty), seg("Item", PathArguments::Empty)],
    };
    let ty = Type::Path { qself: Some(Box::new(name("Q"))), path };
    assert_eq!(collect(&ty), strings(&["Q"]));
}

#[test]
fn bare_fn_holds_inputs_and_output() {
    let f = Type::BareFn(TypeBareFn {
        inputs: vec![name("A"), name("B")],
        output: Some(Box::new(name("R"))),
    });
    assert_eq!(collect(&f), strings(&["A", "B", "R"]));
    let no_output = TypeBareFn { inputs: vec![name("A")], output: None };
    assert_eq!(collect(&no_output), strings(&["A"]));
}

#[test]
fn opaque_forms_hold_nothing() {
    for ty in [Type::Never, Type::Macro, Type::TraitObject, Type::ImplTrait, Type::Infer] {
        assert_eq!(collect(&ty), Vec::<String>::new());
    }
}

#[test]
fn generic_arguments_are_searched_but_consts_are_not() {
    let args = vec![
        GenericArgument::Lifetime(lifetime("a")),
        GenericArgument::Type(name("T")),
        GenericArgument::Binding { ident: "Item".to_string(), ty: name("U") },
        GenericArgument::Const(Expr::Path(bare_path("N"))),
    ];
    let ty = Type::Path {
        qself: None,
        path: Path { global: false, segments: vec![seg("Holder", PathArguments::AngleBracketed(args))] },
    };
    assert_eq!(collect(&ty), strings(&["Holder", "a", "T", "U"]));
}

#[test]
fn parenthesized_arguments_are_searched() {
    let args = PathArguments::Parenthesized { inputs: vec![name("A")], output: Some(Box::new(name("B"))) };
    let path = Path { global: false, segments: vec![seg("Fn", args)] };
    assert_eq!(collect(&path), strings(&["Fn", "A", "B"]));
}

#[test]
fn expressions_are_searched() {
    let cast = Expr::Cast { expr: Box::new(Expr::Path(bare_path("N"))), ty: Box::new(name("T")) };
    assert_eq!(collect(&cast), strings(&["N", "T"]));
    let call = Expr::Call {
        func: Box::new(Expr::Path(bare_path("f"))),
        args: vec![Expr::Lit, Expr::Path(bare_path("M"))],
    };
    assert_eq!(collect(&call), strings(&["f", "M"]));
    let binary = Expr::Binary {
        left: Box::new(Expr::Unary(Box::new(Expr::Path(bare_path("X"))))),
        right: Box::new(Expr::Paren(Box::new(Expr::Lit))),
    };
    assert_eq!(collect(&binary), strings(&["X"]));
    let index = Expr::Index {
        expr: Box::new(Expr::Path(bare_path("xs"))),
        index: Box::new(Expr::Path(bare_path("i"))),
    };
    assert_eq!(collect(&index), strings(&["xs", "i"]));
    assert_eq!(collect(&Expr::Lit), Vec::<String>::new());
}

#[test]
fn type_param_holds_its_name_default_and_bounds() {
    let bound = TypeParamBound::Trait {
        lifetimes: vec![],
        path: Path {
            global: false,
            segments: vec![seg("Trait", PathArguments::AngleBracketed(vec![GenericArgument::Type(name("U"))]))],
        },
    };
    let param = TypeParam {
        ident: "T".to_string(),
        bounds: vec![bound, TypeParamBound::Lifetime(lifetime("b"))],
        default: Some(name("V")),
    };
    assert_eq!(collect(&param), strings(&["T", "Trait", "U", "V", "b"]));
}

#[test]
fn higher_ranked_bound_holds_its_regions() {
    let bound = TypeParamBound::Trait {
        lifetimes: vec![LifetimeDef { lifetime: lifetime("x"), bounds: vec![] }],
        path: Path {
            global: true,
            segments: vec![seg("core", PathArguments::Empty), seg("Fn", PathArguments::Empty)],
        },
    };
    assert_eq!(collect(&bound), strings(&["x"]));
}

#[test]
fn lifetime_def_holds_region_and_bounds() {
    let def = LifetimeDef { lifetime: lifetime("a"), bounds: vec![lifetime("b"), lifetime("c")] };
    assert_eq!(collect(&def), strings(&["a", "b", "c"]));
    assert_eq!(collect(&lifetime("z")), strings(&["z"]));
}

#[test]
fn where_predicates_are_searched() {
    let ty_pred = WherePredicate::Type {
        lifetimes: vec![LifetimeDef { lifetime: lifetime("x"), bounds: vec![] }],
        bounded_ty: name("T"),
        bounds: vec![TypeParamBound::Lifetime(lifetime("a"))],
    };
    assert_eq!(collect(&ty_pred), strings(&["x", "T", "a"]));
    let region_pred = WherePredicate::Lifetime { lifetime: lifetime("a"), bounds: vec![lifetime("b")] };
    assert_eq!(collect(&region_pred), strings(&["a", "b"]));
    let eq_pred = WherePredicate::Eq { lhs_ty: name("T"), rhs_ty: Type::Slice(Box::new(name("U"))) };
    assert_eq!(collect(&eq_pred), strings(&["T", "U"]));
}

#[test]
fn result_stays_within_written_names() {
    let written = ["std", "vec", "Vec", "T", "a"];
    let ty = Type::Reference {
        lifetime: Some(lifetime("a")),
        elem: Box::new(Type::Path {
            qself: None,
            path: Path {
                global: false,
                segments: vec![
                    seg("std", PathArguments::Empty),
                    seg("vec", PathArguments::Empty),
                    seg("Vec", PathArguments::AngleBracketed(vec![GenericArgument::Type(name("T"))])),
                ],
            },
        }),
    };
    let found = collect(&ty);
    assert_eq!(found, strings(&["T", "a"]));
    for ident in &found {
        assert!(written.contains(&ident.as_str()));
    }
}

#[test]
fn collecting_adds_to_what_is_held() {
    let mut idents = IdentSet::new();
    idents.insert("S".to_string());
    name("T").collect_idents(&mut idents);
    assert_eq!(idents.to_vec(), vec!["S".to_string(), "T".to_string()]);
    name("S").collect_idents(&mut idents);
    assert_eq!(idents.to_vec(), vec!["S".to_string(), "T".to_string()]);
    assert!(!idents.contains(&"U".to_string()));
}
