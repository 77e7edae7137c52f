use di_codegen::assemble::{build_plan, generate};
use di_codegen::callsite::call_site;
use di_codegen::classify::{classify, Cardinality, OwnerKind};
use di_codegen::callsite::cardinality_of;
use di_codegen::error::DiError;
use di_codegen::locate::select_constructor;
use di_codegen::model::{simple_name, ImplBlock, MethodSig, PathSegment, TypeExpr, TypePath};
use di_codegen::render::render_type;

fn seg(name: &str, args: Vec<TypeExpr>) -> PathSegment {
    PathSegment { name: name.to_string(), args }
}

fn path(name: &str, args: Vec<TypeExpr>) -> TypePath {
    TypePath { segments: vec![seg(name, args)] }
}

fn named(name: &str) -> TypeExpr {
    TypeExpr::Path(path(name, vec![]))
}

fn wrap(name: &str, inner: TypeExpr) -> TypeExpr {
    TypeExpr::Path(path(name, vec![inner]))
}

fn trait_object(name: &str) -> TypeExpr {
    TypeExpr::TraitObject(path(name, vec![]))
}

fn method(name: &str, marked: bool, params: Vec<TypeExpr>) -> MethodSig {
    MethodSig { name: name.to_string(), marked, params }
}

fn block(self_name: &str, methods: Vec<MethodSig>) -> ImplBlock {
    ImplBlock {
        self_path: path(self_name, vec![]),
        generics: String::new(),
        where_clause: String::new(),
        methods,
    }
}

#[test]
fn locator_selects_conventional_function_without_marker() {
    let methods = vec![
        method("helper", false, vec![]),
        method("new", false, vec![]),
        method("other", false, vec![]),
    ];
    assert_eq!(Ok(1), select_constructor(&methods));
}

#[test]
fn locator_selects_marked_function_regardless_of_name() {
    let methods = vec![
        method("new", false, vec![]),
        method("obscurely_named", true, vec![]),
    ];
    assert_eq!(Ok(1), select_constructor(&methods));
}

#[test]
fn locator_reports_ambiguous_injection_point() {
    let methods = vec![method("create", true, vec![]), method("build", true, vec![])];
    assert_eq!(Err(DiError::AmbiguousInjectionPoint), select_constructor(&methods));
}

#[test]
fn locator_reports_missing_injection_point() {
    let methods = vec![method("helper", false, vec![])];
    assert_eq!(Err(DiError::MissingInjectionPoint), select_constructor(&methods));
}

#[test]
fn generation_fails_ambiguous_for_two_marked_functions() {
    let input = block(
        "FooImpl",
        vec![method("create", true, vec![]), method("build", true, vec![])],
    );
    assert_eq!(Err(DiError::AmbiguousInjectionPoint), generate(input, None));
}

#[test]
fn generation_fails_missing_for_no_eligible_function() {
    let input = block("FooImpl", vec![method("helper", false, vec![])]);
    assert_eq!(Err(DiError::MissingInjectionPoint), generate(input, None));
}

#[test]
fn generation_fails_malformed_for_empty_implementing_path() {
    let input = ImplBlock {
        self_path: TypePath { segments: vec![] },
        generics: String::new(),
        where_clause: String::new(),
        methods: vec![method("new", false, vec![])],
    };
    assert_eq!(Err(DiError::MalformedTarget), generate(input, None));
}

#[test]
fn generation_fails_unsupported_for_bare_type() {
    let input = block("FooImpl", vec![method("new", false, vec![named("Bar")])]);
    assert_eq!(Err(DiError::UnsupportedParameterType(0)), generate(input, None));
}

#[test]
fn generation_reports_position_of_offending_parameter() {
    let input = block(
        "FooImpl",
        vec![method(
            "new",
            false,
            vec![wrap("Rc", trait_object("Bar")), TypeExpr::Verbatim("& u8".to_string())],
        )],
    );
    assert_eq!(Err(DiError::UnsupportedParameterType(1)), generate(input, None));
}

#[test]
fn optional_of_collection_fails_for_trait_target() {
    let input = block(
        "FooImpl",
        vec![method("new", false, vec![wrap("Option", wrap("Vec", wrap("Rc", trait_object("Bar"))))])],
    );
    assert_eq!(Err(DiError::InvalidOptionalMultiplicity(0)), generate(input, None));
}

#[test]
fn optional_of_collection_fails_for_concrete_target() {
    let input = block(
        "FooImpl",
        vec![method("new", false, vec![wrap("Option", wrap("Vec", wrap("Rc", named("Bar"))))])],
    );
    assert_eq!(Err(DiError::InvalidOptionalMultiplicity(0)), generate(input, None));
}

#[test]
fn collection_of_optional_is_unsupported() {
    let input = block(
        "FooImpl",
        vec![method("new", false, vec![wrap("Vec", wrap("Option", wrap("Rc", trait_object("Bar"))))])],
    );
    assert_eq!(Err(DiError::UnsupportedParameterType(0)), generate(input, None));
}

#[test]
fn provider_handle_is_passed_through_without_declaration() {
    let input = block("FooImpl", vec![method("new", false, vec![named("ServiceProvider")])]);

    let result = generate(input, None).unwrap();

    let expected = "impl di :: Injectable for FooImpl { fn inject (lifetime : di :: ServiceLifetime) -> di :: ServiceDescriptor { di :: ServiceDescriptorBuilder :: < Self , Self > :: new (lifetime , di :: Type :: of :: < Self > ()) . from (| sp : & di :: ServiceProvider | di :: ServiceRef :: new (Self :: new (sp . clone ()))) } }";
    assert_eq!(expected, result);
}

#[test]
fn lazy_required_dependency_uses_deferred_accessor() {
    let input = block(
        "LazyFoo",
        vec![method("new", false, vec![wrap("Lazy", wrap("Rc", named("Bar")))])],
    );

    let result = generate(input, None).unwrap();

    assert!(result.contains(
        ". depends_on (di :: ServiceDependency :: new (di :: Type :: of :: < Bar > () , di :: ServiceCardinality :: ExactlyOne))"
    ));
    assert!(result.contains("Self :: new (di :: lazy :: exactly_one :: < Bar > (sp . clone ()))"));
}

#[test]
fn lazy_optional_dependency_uses_deferred_accessor() {
    let input = block(
        "MaybeLazyFoo",
        vec![method("new", false, vec![wrap("Lazy", wrap("Option", wrap("ServiceRef", trait_object("Bar"))))])],
    );

    let result = generate(input, None).unwrap();

    assert!(result.contains(
        ". depends_on (di :: ServiceDependency :: new (di :: Type :: of :: < dyn Bar > () , di :: ServiceCardinality :: ZeroOrOne))"
    ));
    assert!(result.contains("Self :: new (di :: lazy :: zero_or_one :: < dyn Bar > (sp . clone ()))"));
}

#[test]
fn lazy_collection_dependency_uses_deferred_accessor() {
    let input = block(
        "ManyLazyFoo",
        vec![method("new", false, vec![wrap("Lazy", wrap("Vec", wrap("ServiceRef", trait_object("Bar"))))])],
    );

    let result = generate(input, None).unwrap();

    assert!(result.contains(
        ". depends_on (di :: ServiceDependency :: new (di :: Type :: of :: < dyn Bar > () , di :: ServiceCardinality :: ZeroOrMore))"
    ));
    assert!(result.contains("Self :: new (di :: lazy :: zero_or_more :: < dyn Bar > (sp . clone ()))"));
}

#[test]
fn arc_is_accepted_as_shared_ownership_wrapper() {
    let shape = classify(wrap("Arc", trait_object("Bar")), 0).unwrap();

    assert_eq!(OwnerKind::SharedOwnership, shape.owner);
    assert_eq!(Cardinality::ExactlyOne, cardinality_of(&shape));
    assert_eq!("dyn Bar", render_type(&shape.base));
}

#[test]
fn deferred_wrapper_around_provider_handle_passes_through() {
    let shape = classify(wrap("Lazy", named("ServiceProvider")), 0).unwrap();

    assert_eq!(OwnerKind::ProviderPassthrough, shape.owner);
    assert!(!shape.lazy);

    let (retrieval, declaration) = call_site(&shape);
    assert_eq!("sp . clone ()", retrieval);
    assert!(declaration.is_none());
}

#[test]
fn alias_with_equal_simple_name_registers_as_self() {
    let input = block("FooImpl", vec![method("new", false, vec![])]);

    let result = generate(input, Some(path("FooImpl", vec![]))).unwrap();

    assert!(result.contains("di :: ServiceDescriptorBuilder :: < Self , Self >"));
}

#[test]
fn qualified_alias_keeps_its_full_path_in_the_target() {
    let alias = TypePath { segments: vec![seg("api", vec![]), seg("Foo", vec![])] };
    let input = block("FooImpl", vec![method("new", false, vec![])]);

    let result = generate(input, Some(alias)).unwrap();

    assert!(result.contains("di :: ServiceDescriptorBuilder :: < dyn api :: Foo , Self >"));
}

#[test]
fn classification_of_required_trait_dependency() {
    let shape = classify(wrap("Rc", trait_object("Bar")), 0).unwrap();

    assert_eq!(OwnerKind::SharedOwnership, shape.owner);
    assert!(!shape.optional && !shape.many && !shape.lazy);
    assert_eq!(Cardinality::ExactlyOne, cardinality_of(&shape));
    assert_eq!("dyn Bar", render_type(&shape.base));
}

#[test]
fn classification_normalizes_provider_flags() {
    let shape = classify(wrap("Option", named("ServiceProvider")), 0).unwrap();

    assert_eq!(OwnerKind::ProviderPassthrough, shape.owner);
    assert!(!shape.optional && !shape.many && !shape.lazy);
}

#[test]
fn call_site_pairs_required_retrieval_with_declaration() {
    let shape = classify(wrap("Rc", trait_object("Bar")), 0).unwrap();

    let (retrieval, declaration) = call_site(&shape);

    assert_eq!("sp . get_required :: < dyn Bar > ()", retrieval);
    assert_eq!(
        "di :: ServiceDependency :: new (di :: Type :: of :: < dyn Bar > () , di :: ServiceCardinality :: ExactlyOne)",
        declaration.unwrap()
    );
}

#[test]
fn call_site_for_provider_has_no_declaration() {
    let shape = classify(named("ServiceProvider"), 0).unwrap();

    let (retrieval, declaration) = call_site(&shape);

    assert_eq!("sp . clone ()", retrieval);
    assert!(declaration.is_none());
}

#[test]
fn declarations_and_arguments_keep_parameter_order() {
    let input = block(
        "Container",
        vec![method(
            "new",
            false,
            vec![
                wrap("Rc", trait_object("First")),
                named("ServiceProvider"),
                wrap("Rc", trait_object("Second")),
            ],
        )],
    );

    let result = generate(input, None).unwrap();

    let first_decl = result
        .find("di :: Type :: of :: < dyn First > () , di :: ServiceCardinality :: ExactlyOne")
        .unwrap();
    let second_decl = result
        .find("di :: Type :: of :: < dyn Second > () , di :: ServiceCardinality :: ExactlyOne")
        .unwrap();
    assert!(first_decl < second_decl);
    assert!(result.contains(
        "Self :: new (sp . get_required :: < dyn First > () , sp . clone () , sp . get_required :: < dyn Second > ())"
    ));
}

#[test]
fn plan_carries_generics_and_constraints_verbatim() {
    let input = ImplBlock {
        self_path: path("GenericBar", vec![named("T")]),
        generics: "< T : Default >".to_string(),
        where_clause: "where T : Clone".to_string(),
        methods: vec![method("new", false, vec![])],
    };

    let plan = build_plan(input, None).unwrap();

    assert_eq!("< T : Default >", plan.generics);
    assert_eq!("where T : Clone", plan.where_clause);
    assert_eq!("new", plan.ctor);
    assert!(plan.target.is_none());
    assert_eq!(0, plan.dependencies.len());
}

#[test]
fn simple_name_is_the_last_segment() {
    let p = TypePath { segments: vec![seg("api", vec![]), seg("Foo", vec![])] };
    assert_eq!("Foo", simple_name(&p).as_str());
}

#[test]
fn nested_generic_arguments_render_with_separated_tokens() {
    let t = wrap("Vec", wrap("Rc", trait_object("Bar")));
    assert_eq!("Vec < Rc < dyn Bar > >", render_type(&t));
}

#[test]
fn message_for_malformed_target() {
    assert_eq!(
        "Attribute can only be applied to a structure implementation block.",
        DiError::MalformedTarget.message("FooImpl")
    );
}

#[test]
fn message_for_missing_injection_point() {
    assert_eq!(
        "Neither FooImpl::new or an associated method decorated with #[inject] was found.",
        DiError::MissingInjectionPoint.message("FooImpl")
    );
}

#[test]
fn message_for_ambiguous_injection_point() {
    assert_eq!(
        "FooImpl has more than one associated method decorated with #[inject].",
        DiError::AmbiguousInjectionPoint.message("FooImpl")
    );
}

#[test]
fn message_for_unsupported_parameter() {
    assert_eq!(
        "Expected ServiceRef, Rc, or Arc.",
        DiError::UnsupportedParameterType(0).message("FooImpl")
    );
}

#[test]
fn message_for_invalid_optional_multiplicity() {
    assert_eq!(
        "Option<Vec> is not supported. Did you mean Vec?",
        DiError::InvalidOptionalMultiplicity(0).message("FooImpl")
    );
}
