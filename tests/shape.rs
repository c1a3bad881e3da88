use builder::shape::{
    setter_param_type, slot_type, ty_inner_type, GenericArg, PathArgs, PathSegment, TypeExpr,
    TypeKind,
};

fn plain(name: &str) -> TypeExpr {
    TypeExpr {
        text: name.to_string(),
        kind: TypeKind::Path(vec![PathSegment { ident: name.to_string(), args: PathArgs::Bare }]),
    }
}

fn generic(text: &str, segments: &[&str], args: Vec<GenericArg>) -> TypeExpr {
    let mut segs: Vec<PathSegment> = segments
        .iter()
        .map(|s| PathSegment { ident: s.to_string(), args: PathArgs::Bare })
        .collect();
    segs.last_mut().unwrap().args = PathArgs::AngleBracketed(args);
    TypeExpr { text: text.to_string(), kind: TypeKind::Path(segs) }
}

fn option_of(inner: &str) -> TypeExpr {
    generic(&format!("Option < {} >", inner), &["Option"], vec![GenericArg::Type(plain(inner))])
}

#[test]
fn option_of_a_type_is_a_wrapper() {
    let ty = option_of("i64");
    let inner = ty_inner_type(&ty).expect("wrapper");
    assert_eq!(inner.text, "i64");
}

#[test]
fn qualified_option_is_not_a_wrapper() {
    let ty = generic(
        "std :: option :: Option < i64 >",
        &["std", "option", "Option"],
        vec![GenericArg::Type(plain("i64"))],
    );
    assert!(ty_inner_type(&ty).is_none());
}

#[test]
fn other_names_and_arities_are_not_wrappers() {
    assert!(ty_inner_type(&plain("i64")).is_none());
    assert!(ty_inner_type(&plain("Option")).is_none());
    let vec_ty = generic("Vec < i64 >", &["Vec"], vec![GenericArg::Type(plain("i64"))]);
    assert!(ty_inner_type(&vec_ty).is_none());
    let two = generic(
        "Option < i64 , u8 >",
        &["Option"],
        vec![GenericArg::Type(plain("i64")), GenericArg::Type(plain("u8"))],
    );
    assert!(ty_inner_type(&two).is_none());
    let none = generic("Option < >", &["Option"], vec![]);
    assert!(ty_inner_type(&none).is_none());
    let lifetime = generic("Option < 'a >", &["Option"], vec![GenericArg::Other]);
    assert!(ty_inner_type(&lifetime).is_none());
    let paren = TypeExpr {
        text: "Option (i64)".to_string(),
        kind: TypeKind::Path(vec![PathSegment {
            ident: "Option".to_string(),
            args: PathArgs::Parenthesized,
        }]),
    };
    assert!(ty_inner_type(&paren).is_none());
    let reference = TypeExpr { text: "& Option < i64 >".to_string(), kind: TypeKind::Other };
    assert!(ty_inner_type(&reference).is_none());
}

#[test]
fn alias_of_option_is_not_recognised() {
    let ty = generic("Maybe < i64 >", &["Maybe"], vec![GenericArg::Type(plain("i64"))]);
    assert!(ty_inner_type(&ty).is_none());
}

#[test]
fn slot_type_wraps_only_required_fields() {
    assert_eq!(slot_type(&plain("i64")), "std::option::Option<i64>");
    assert_eq!(slot_type(&option_of("i64")), "Option < i64 >");
}

#[test]
fn setter_takes_the_inner_type_of_a_wrapper() {
    assert_eq!(setter_param_type(&plain("String")), "String");
    assert_eq!(setter_param_type(&option_of("i64")), "i64");
}
