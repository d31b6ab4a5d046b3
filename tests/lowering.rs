use hir_type_ref::{
    type_bounds_from_ast, BoundSyntax, GenericArgs, Mutability, Path, PathSegment, TypeBound,
    TypeRef, TypeSyntax,
};

fn path(name: &str) -> Path {
    Path::from_name(name.to_string())
}

fn named(name: &str) -> TypeSyntax {
    TypeSyntax::PathType(Some(path(name)))
}

fn boxed(t: TypeSyntax) -> Option<Box<TypeSyntax>> {
    Some(Box::new(t))
}

#[test]
fn reference_to_mut_slice() {
    let node = TypeSyntax::ReferenceType {
        type_ref: boxed(TypeSyntax::SliceType(boxed(named("i32")))),
        mut_token: true,
    };
    assert_eq!(
        TypeRef::from_ast(node),
        TypeRef::Reference(
            Box::new(TypeRef::Slice(Box::new(TypeRef::Path(path("i32"))))),
            Mutability::Mutable
        )
    );
}

#[test]
fn fn_pointer_without_return_type() {
    let node = TypeSyntax::FnPointerType {
        param_list: Some(vec![boxed(named("i32")), boxed(named("bool"))]),
        ret_type: None,
    };
    assert_eq!(
        TypeRef::from_ast(node),
        TypeRef::Fn(vec![
            TypeRef::Path(path("i32")),
            TypeRef::Path(path("bool")),
            TypeRef::Tuple(vec![])
        ])
    );
}

#[test]
fn impl_trait_keeps_bound_order() {
    let node = TypeSyntax::ImplTraitType(Some(vec![
        BoundSyntax::PathType(Some(path("Foo"))),
        BoundSyntax::PathType(Some(path("Bar"))),
    ]));
    assert_eq!(
        TypeRef::from_ast(node),
        TypeRef::ImplTrait(vec![TypeBound::Path(path("Foo")), TypeBound::Path(path("Bar"))])
    );
}

#[test]
fn pointer_with_missing_pointee() {
    let node = TypeSyntax::PointerType { type_ref: None, mut_token: true };
    assert_eq!(
        TypeRef::from_ast(node),
        TypeRef::RawPtr(Box::new(TypeRef::Error), Mutability::Mutable)
    );
    let node = TypeSyntax::PointerType { type_ref: None, mut_token: false };
    assert_eq!(
        TypeRef::from_ast(node),
        TypeRef::RawPtr(Box::new(TypeRef::Error), Mutability::Shared)
    );
}

#[test]
fn parens_are_transparent() {
    let wrapped = TypeSyntax::ParenType(boxed(named("T")));
    assert_eq!(TypeRef::from_ast(wrapped), TypeRef::from_ast(named("T")));
    let empty_parens = TypeSyntax::ParenType(None);
    assert_eq!(TypeRef::from_ast(empty_parens), TypeRef::Error);
}

#[test]
fn unit_is_the_empty_tuple() {
    assert_eq!(TypeRef::unit(), TypeRef::from_ast(TypeSyntax::TupleType(vec![])));
    assert_eq!(TypeRef::unit(), TypeRef::Tuple(vec![]));
}

#[test]
fn fn_pointer_keeps_every_parameter() {
    let node = TypeSyntax::FnPointerType {
        param_list: Some(vec![boxed(named("u8")), None, boxed(TypeSyntax::NeverType)]),
        ret_type: boxed(named("bool")),
    };
    let lowered = TypeRef::from_ast(node);
    assert_eq!(
        lowered,
        TypeRef::Fn(vec![
            TypeRef::Path(path("u8")),
            TypeRef::Error,
            TypeRef::Never,
            TypeRef::Path(path("bool"))
        ])
    );
    let no_list = TypeSyntax::FnPointerType { param_list: None, ret_type: None };
    assert_eq!(TypeRef::from_ast(no_list), TypeRef::Fn(vec![TypeRef::Tuple(vec![])]));
}

#[test]
fn tuple_keeps_field_order() {
    let node = TypeSyntax::TupleType(vec![named("A"), TypeSyntax::PlaceholderType, named("B")]);
    assert_eq!(
        TypeRef::from_ast(node),
        TypeRef::Tuple(vec![
            TypeRef::Path(path("A")),
            TypeRef::Placeholder,
            TypeRef::Path(path("B"))
        ])
    );
    let single = TypeSyntax::TupleType(vec![named("A")]);
    assert_eq!(TypeRef::from_ast(single), TypeRef::Tuple(vec![TypeRef::Path(path("A"))]));
}

#[test]
fn unsupported_bounds_become_errors() {
    let bounds = vec![
        BoundSyntax::Lifetime,
        BoundSyntax::PathType(Some(path("Send"))),
        BoundSyntax::ForType,
        BoundSyntax::PathType(None),
    ];
    assert_eq!(
        type_bounds_from_ast(Some(bounds)),
        vec![TypeBound::Error, TypeBound::Path(path("Send")), TypeBound::Error, TypeBound::Error]
    );
    assert_eq!(type_bounds_from_ast(None), vec![]);
    assert_eq!(TypeRef::from_ast(TypeSyntax::DynTraitType(None)), TypeRef::DynTrait(vec![]));
    assert_eq!(TypeBound::from_ast(BoundSyntax::Lifetime), TypeBound::Error);
}

#[test]
fn leaf_and_wrapper_kinds() {
    assert_eq!(TypeRef::from_ast(TypeSyntax::NeverType), TypeRef::Never);
    assert_eq!(TypeRef::from_ast(TypeSyntax::PlaceholderType), TypeRef::Placeholder);
    assert_eq!(TypeRef::from_ast(TypeSyntax::PathType(None)), TypeRef::Error);
    assert_eq!(
        TypeRef::from_ast(TypeSyntax::ArrayType(boxed(named("u8")))),
        TypeRef::Array(Box::new(TypeRef::Path(path("u8"))))
    );
    assert_eq!(
        TypeRef::from_ast(TypeSyntax::ForType(boxed(named("F")))),
        TypeRef::Path(path("F"))
    );
    assert_eq!(
        TypeRef::from_ast(TypeSyntax::ReferenceType { type_ref: boxed(named("T")), mut_token: false }),
        TypeRef::Reference(Box::new(TypeRef::Path(path("T"))), Mutability::Shared)
    );
    assert_eq!(TypeRef::from_ast_opt(None), TypeRef::Error);
    assert_eq!(TypeRef::from_ast_opt(boxed(TypeSyntax::NeverType)), TypeRef::Never);
}

#[test]
fn mutability_keywords() {
    assert_eq!(Mutability::from_mutable(true), Mutability::Mutable);
    assert_eq!(Mutability::from_mutable(false), Mutability::Shared);
    assert_eq!(Mutability::Shared.as_keyword_for_ref(), "");
    assert_eq!(Mutability::Mutable.as_keyword_for_ref(), "mut ");
    assert_eq!(Mutability::Shared.as_keyword_for_ptr(), "const ");
    assert_eq!(Mutability::Mutable.as_keyword_for_ptr(), "mut ");
}

#[test]
fn bound_as_path() {
    let bound = TypeBound::Path(path("Iterator"));
    assert_eq!(bound.as_path(), Some(&path("Iterator")));
    assert_eq!(TypeBound::Error.as_path(), None);
}

#[test]
fn walk_visits_every_node_in_pre_order() {
    // <! as Trait>::Assoc<_, Item = Error> inside (Path, [!])
    let qualified = Path {
        type_anchor: Some(Box::new(TypeRef::Never)),
        segments: vec![
            PathSegment { name: "Trait".to_string(), args_and_bindings: None },
            PathSegment {
                name: "Assoc".to_string(),
                args_and_bindings: Some(GenericArgs {
                    args: vec![TypeRef::Placeholder],
                    bindings: vec![("Item".to_string(), TypeRef::Error)],
                }),
            },
        ],
    };
    let root = TypeRef::Reference(
        Box::new(TypeRef::Tuple(vec![
            TypeRef::Path(qualified),
            TypeRef::Slice(Box::new(TypeRef::Never)),
            TypeRef::DynTrait(vec![TypeBound::Error, TypeBound::Path(path("Send"))]),
        ])),
        Mutability::Shared,
    );
    let visited = root.walk();
    assert_eq!(visited.len(), 9);
    assert!(std::ptr::eq(visited[0], &root));
    assert!(matches!(visited[1], TypeRef::Tuple(_)));
    assert!(matches!(visited[2], TypeRef::Path(_)));
    assert_eq!(visited[3], &TypeRef::Never);
    assert_eq!(visited[4], &TypeRef::Placeholder);
    assert_eq!(visited[5], &TypeRef::Error);
    assert!(matches!(visited[6], TypeRef::Slice(_)));
    assert_eq!(visited[7], &TypeRef::Never);
    assert!(matches!(visited[8], TypeRef::DynTrait(_)));
}

#[test]
fn walk_of_a_leaf_is_the_leaf() {
    let leaf = TypeRef::Placeholder;
    let visited = leaf.walk();
    assert_eq!(visited.len(), 1);
    assert!(std::ptr::eq(visited[0], &leaf));
}
