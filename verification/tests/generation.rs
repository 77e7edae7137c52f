use di_codegen::assemble::generate;
use di_codegen::model::{ImplBlock, MethodSig, PathSegment, TypeExpr, TypePath};

fn seg(name: &str, args: Vec<TypeExpr>) -> PathSegment {
    PathSegment { name: name.to_string(), args }
}

fn path(name: &str, args: Vec<TypeExpr>) -> TypePath {
    TypePath { segments: vec![seg(name, args)] }
}

fn named(name: &str) -> TypeExpr {
    TypeExpr::Path(path(name, vec![]))
}

fn wrap(name: &str, inner: TypeExpr) -> TypeExpr {
    TypeExpr::Path(path(name, vec![inner]))
}

fn trait_object(name: &str) -> TypeExpr {
    TypeExpr::TraitObject(path(name, vec![]))
}

fn method(name: &str, marked: bool, params: Vec<TypeExpr>) -> MethodSig {
    MethodSig { name: name.to_string(), marked, params }
}

fn block(self_path: TypePath, generics: &str, where_clause: &str, methods: Vec<MethodSig>) -> ImplBlock {
    ImplBlock {
        self_path,
        generics: generics.to_string(),
        where_clause: where_clause.to_string(),
        methods,
    }
}

#[test]
fn attribute_should_implement_injectable_by_convention() {
    let input = block(path("FooImpl", vec![]), "", "", vec![method("new", false, vec![])]);

    let result = generate(input, Some(path("Foo", vec![]))).unwrap();

    let expected = "impl di :: Injectable for FooImpl { fn inject (lifetime : di :: ServiceLifetime) -> di :: ServiceDescriptor { di :: ServiceDescriptorBuilder :: < dyn Foo , Self > :: new (lifetime , di :: Type :: of :: < Self > ()) . from (| sp : & di :: ServiceProvider | di :: ServiceRef :: new (Self :: new ())) } }";
    assert_eq!(expected, result);
}

#[test]
fn attribute_should_implement_injectable_using_decorated_method() {
    let input = block(path("FooImpl", vec![]), "", "", vec![method("create", true, vec![])]);

    let result = generate(input, Some(path("Foo", vec![]))).unwrap();

    let expected = "impl di :: Injectable for FooImpl { fn inject (lifetime : di :: ServiceLifetime) -> di :: ServiceDescriptor { di :: ServiceDescriptorBuilder :: < dyn Foo , Self > :: new (lifetime , di :: Type :: of :: < Self > ()) . from (| sp : & di :: ServiceProvider | di :: ServiceRef :: new (Self :: create ())) } }";
    assert_eq!(expected, result);
}

#[test]
fn attribute_should_inject_required_dependency() {
    let input = block(
        path("FooImpl", vec![]),
        "",
        "",
        vec![method("new", false, vec![wrap("Rc", trait_object("Bar"))])],
    );

    let result = generate(input, Some(path("Foo", vec![]))).unwrap();

    let expected = "impl di :: Injectable for FooImpl { fn inject (lifetime : di :: ServiceLifetime) -> di :: ServiceDescriptor { di :: ServiceDescriptorBuilder :: < dyn Foo , Self > :: new (lifetime , di :: Type :: of :: < Self > ()) . depends_on (di :: ServiceDependency :: new (di :: Type :: of :: < dyn Bar > () , di :: ServiceCardinality :: ExactlyOne)) . from (| sp : & di :: ServiceProvider | di :: ServiceRef :: new (Self :: new (sp . get_required :: < dyn Bar > ()))) } }";
    assert_eq!(expected, result);
}

#[test]
fn attribute_should_inject_optional_dependency() {
    let input = block(
        path("FooImpl", vec![]),
        "",
        "",
        vec![method("new", false, vec![wrap("Option", wrap("Rc", trait_object("Bar")))])],
    );

    let result = generate(input, Some(path("Foo", vec![]))).unwrap();

    let expected = "impl di :: Injectable for FooImpl { fn inject (lifetime : di :: ServiceLifetime) -> di :: ServiceDescriptor { di :: ServiceDescriptorBuilder :: < dyn Foo , Self > :: new (lifetime , di :: Type :: of :: < Self > ()) . depends_on (di :: ServiceDependency :: new (di :: Type :: of :: < dyn Bar > () , di :: ServiceCardinality :: ZeroOrOne)) . from (| sp : & di :: ServiceProvider | di :: ServiceRef :: new (Self :: new (sp . get :: < dyn Bar > ()))) } }";
    assert_eq!(expected, result);
}

#[test]
fn attribute_should_inject_dependency_collection() {
    let input = block(
        path("FooImpl", vec![]),
        "",
        "",
        vec![method("new", false, vec![wrap("Vec", wrap("Rc", trait_object("Bar")))])],
    );

    let result = generate(input, Some(path("Foo", vec![]))).unwrap();

    let expected = "impl di :: Injectable for FooImpl { fn inject (lifetime : di :: ServiceLifetime) -> di :: ServiceDescriptor { di :: ServiceDescriptorBuilder :: < dyn Foo , Self > :: new (lifetime , di :: Type :: of :: < Self > ()) . depends_on (di :: ServiceDependency :: new (di :: Type :: of :: < dyn Bar > () , di :: ServiceCardinality :: ZeroOrMore)) . from (| sp : & di :: ServiceProvider | di :: ServiceRef :: new (Self :: new (sp . get_all :: < dyn Bar > () . collect ()))) } }";
    assert_eq!(expected, result);
}

#[test]
fn attribute_should_inject_multiple_dependencies() {
    let input = block(
        path("ThingImpl", vec![]),
        "",
        "",
        vec![method(
            "create_new",
            true,
            vec![
                wrap("ServiceRef", trait_object("Foo")),
                wrap("Option", wrap("ServiceRef", trait_object("Bar"))),
            ],
        )],
    );

    let result = generate(input, Some(path("Thing", vec![]))).unwrap();

    let expected = "impl di :: Injectable for ThingImpl { fn inject (lifetime : di :: ServiceLifetime) -> di :: ServiceDescriptor { di :: ServiceDescriptorBuilder :: < dyn Thing , Self > :: new (lifetime , di :: Type :: of :: < Self > ()) . depends_on (di :: ServiceDependency :: new (di :: Type :: of :: < dyn Foo > () , di :: ServiceCardinality :: ExactlyOne)) . depends_on (di :: ServiceDependency :: new (di :: Type :: of :: < dyn Bar > () , di :: ServiceCardinality :: ZeroOrOne)) . from (| sp : & di :: ServiceProvider | di :: ServiceRef :: new (Self :: create_new (sp . get_required :: < dyn Foo > () , sp . get :: < dyn Bar > ()))) } }";
    assert_eq!(expected, result);
}

#[test]
fn attribute_should_implement_injectable_for_self() {
    let input = block(path("FooImpl", vec![]), "", "", vec![method("new", false, vec![])]);

    let result = generate(input, None).unwrap();

    let expected = "impl di :: Injectable for FooImpl { fn inject (lifetime : di :: ServiceLifetime) -> di :: ServiceDescriptor { di :: ServiceDescriptorBuilder :: < Self , Self > :: new (lifetime , di :: Type :: of :: < Self > ()) . from (| sp : & di :: ServiceProvider | di :: ServiceRef :: new (Self :: new ())) } }";
    assert_eq!(expected, result);
}

#[test]
fn attribute_should_implement_injectable_for_struct() {
    let input = block(
        path("FooImpl", vec![]),
        "",
        "",
        vec![method("new", false, vec![wrap("Rc", named("Bar"))])],
    );

    let result = generate(input, Some(path("Foo", vec![]))).unwrap();

    let expected = "impl di :: Injectable for FooImpl { fn inject (lifetime : di :: ServiceLifetime) -> di :: ServiceDescriptor { di :: ServiceDescriptorBuilder :: < dyn Foo , Self > :: new (lifetime , di :: Type :: of :: < Self > ()) . depends_on (di :: ServiceDependency :: new (di :: Type :: of :: < Bar > () , di :: ServiceCardinality :: ExactlyOne)) . from (| sp : & di :: ServiceProvider | di :: ServiceRef :: new (Self :: new (sp . get_required :: < Bar > ()))) } }";
    assert_eq!(expected, result);
}

#[test]
fn attribute_should_implement_injectable_for_generic_struct() {
    let input = block(
        path("GenericBar", vec![named("T")]),
        "< T : Default >",
        "",
        vec![method("new", false, vec![])],
    );

    let result = generate(input, None).unwrap();

    let expected = "impl < T : Default > di :: Injectable for GenericBar < T > { fn inject (lifetime : di :: ServiceLifetime) -> di :: ServiceDescriptor { di :: ServiceDescriptorBuilder :: < Self , Self > :: new (lifetime , di :: Type :: of :: < Self > ()) . from (| sp : & di :: ServiceProvider | di :: ServiceRef :: new (Self :: new ())) } }";
    assert_eq!(expected, result);
}

#[test]
fn attribute_should_implement_injectable_for_generic_trait() {
    let input = block(
        path("PairImpl", vec![named("TKey"), named("TValue")]),
        "< TKey , TValue >",
        "where TKey : Debug , TValue : Debug",
        vec![method(
            "new",
            false,
            vec![wrap("ServiceRef", named("TKey")), wrap("ServiceRef", named("TValue"))],
        )],
    );

    let result = generate(input, Some(path("Pair", vec![named("TKey"), named("TValue")]))).unwrap();

    let expected = "impl < TKey , TValue > di :: Injectable for PairImpl < TKey , TValue > where TKey : Debug , TValue : Debug { fn inject (lifetime : di :: ServiceLifetime) -> di :: ServiceDescriptor { di :: ServiceDescriptorBuilder :: < dyn Pair < TKey , TValue > , Self > :: new (lifetime , di :: Type :: of :: < Self > ()) . depends_on (di :: ServiceDependency :: new (di :: Type :: of :: < TKey > () , di :: ServiceCardinality :: ExactlyOne)) . depends_on (di :: ServiceDependency :: new (di :: Type :: of :: < TValue > () , di :: ServiceCardinality :: ExactlyOne)) . from (| sp : & di :: ServiceProvider | di :: ServiceRef :: new (Self :: new (sp . get_required :: < TKey > () , sp . get_required :: < TValue > ()))) } }";
    assert_eq!(expected, result);
}
