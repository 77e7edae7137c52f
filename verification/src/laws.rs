//! The laws the generator obeys, stated and proved over the specification
//! functions that the executable functions are verified against.

use vstd::prelude::*;

use crate::classify::{
    is_shared_wrapper, is_wrapper, spec_cardinality, spec_classify, wrapper_inner, Cardinality,
    OwnerKind, ParamShape,
};
use crate::callsite::{
    has_declaration, spec_render_cardinality, spec_render_declaration, spec_render_retrieval,
    spec_retrieval_prefix, spec_retrieval_suffix,
};
use crate::assemble::{
    spec_build_ok, spec_classify_all, spec_render_builder, spec_render_deps,
    spec_render_factory_args, spec_target, RegistrationPlan,
};
use crate::error::DiError;
use crate::locate::spec_select;
use crate::model::{spec_simple_name, ImplBlock, TypeExpr, TypePath};
use crate::render::{spec_render_segments, spec_render_type};

verus! {

/// The wrapper names the classifier distinguishes are pairwise distinct, so
/// a shared-ownership wrapper is never mistaken for a peelable layer.
proof fn lemma_wrapper_names_distinct()
    ensures
        "ServiceRef"@ != "Lazy"@ && "ServiceRef"@ != "Option"@ && "ServiceRef"@ != "Vec"@,
        "Rc"@ != "Lazy"@ && "Rc"@ != "Option"@ && "Rc"@ != "Vec"@,
        "Arc"@ != "Lazy"@ && "Arc"@ != "Option"@ && "Arc"@ != "Vec"@,
        "Option"@ != "Lazy"@,
        "Vec"@ != "Lazy"@ && "Vec"@ != "Option"@,
{
    reveal_strlit("ServiceRef");
    reveal_strlit("Rc");
    reveal_strlit("Arc");
    reveal_strlit("Lazy");
    reveal_strlit("Option");
    reveal_strlit("Vec");
    assert("ServiceRef"@.len() == 10 && "Rc"@.len() == 2 && "Arc"@.len() == 3);
    assert("Lazy"@.len() == 4 && "Option"@.len() == 6 && "Vec"@.len() == 3);
    assert("Arc"@[0] == 'A' && "Vec"@[0] == 'V');
}

/// A construction function with zero parameters yields a plan with an empty
/// declaration sequence and a zero-argument factory call.
pub proof fn lemma_zero_parameters(
    block: ImplBlock,
    alias: Option<TypePath>,
    plan: RegistrationPlan,
    i: int,
)
    requires
        spec_build_ok(block, alias, plan),
        spec_select(block.methods@) == Ok::<int, DiError>(i),
        block.methods@[i].params@.len() == 0,
    ensures
        plan.dependencies@.len() == 0,
        spec_render_deps(plan.dependencies@) == Seq::<char>::empty(),
        spec_render_factory_args(plan.dependencies@) == Seq::<char>::empty(),
{
    assert(spec_classify_all(block.methods@[i].params@, 0) == Ok::<Seq<ParamShape>, DiError>(
        Seq::empty(),
    ));
}

/// A required shared-ownership parameter classifies to exactly one
/// declaration with cardinality `ExactlyOne` and a required-retrieval call
/// site referencing the wrapped identity, whether that identity is
/// trait-like or concrete.
pub proof fn lemma_required_shared_dependency(t: TypeExpr, idx: usize)
    requires
        is_shared_wrapper(t),
        wrapper_inner(t) is TraitObject || wrapper_inner(t) is Path,
    ensures
        spec_classify(t, idx) matches Ok(s) && {
            &&& s.base == wrapper_inner(t)
            &&& s.owner == OwnerKind::SharedOwnership
            &&& !s.optional && !s.many && !s.lazy
            &&& spec_cardinality(s) == Cardinality::ExactlyOne
            &&& has_declaration(s)
            &&& spec_render_retrieval(s) == "sp . get_required :: < "@ + spec_render_type(
                wrapper_inner(t),
            ) + " > ()"@
            &&& spec_render_declaration(s) == "di :: ServiceDependency :: new (di :: Type :: of :: < "@
                + spec_render_type(wrapper_inner(t)) + " > () , "@
                + "di :: ServiceCardinality :: ExactlyOne"@ + ")"@
        },
{
    lemma_wrapper_names_distinct();
    assert(!is_wrapper(t, "Lazy"@));
    assert(!is_wrapper(t, "Option"@));
    assert(!is_wrapper(t, "Vec"@));
}

/// The same parameter wrapped additionally in the optionality wrapper
/// classifies to cardinality `ZeroOrOne` and an optional-retrieval call.
pub proof fn lemma_optional_dependency(opt: TypeExpr, idx: usize)
    requires
        is_wrapper(opt, "Option"@),
        is_shared_wrapper(wrapper_inner(opt)),
        wrapper_inner(wrapper_inner(opt)) is TraitObject || wrapper_inner(wrapper_inner(opt))
            is Path,
    ensures
        spec_classify(opt, idx) matches Ok(s) && {
            &&& s.base == wrapper_inner(wrapper_inner(opt))
            &&& s.owner == OwnerKind::SharedOwnership
            &&& s.optional && !s.many && !s.lazy
            &&& spec_cardinality(s) == Cardinality::ZeroOrOne
            &&& has_declaration(s)
            &&& spec_render_retrieval(s) == "sp . get :: < "@ + spec_render_type(
                wrapper_inner(wrapper_inner(opt)),
            ) + " > ()"@
        },
{
    lemma_wrapper_names_distinct();
    assert(!is_wrapper(opt, "Lazy"@));
    let t = wrapper_inner(opt);
    assert(!is_wrapper(t, "Vec"@));
}

/// The same parameter wrapped in the multiplicity wrapper classifies to
/// cardinality `ZeroOrMore` and a collection-materializing call.
pub proof fn lemma_collection_dependency(many: TypeExpr, idx: usize)
    requires
        is_wrapper(many, "Vec"@),
        is_shared_wrapper(wrapper_inner(many)),
        wrapper_inner(wrapper_inner(many)) is TraitObject || wrapper_inner(wrapper_inner(many))
            is Path,
    ensures
        spec_classify(many, idx) matches Ok(s) && {
            &&& s.base == wrapper_inner(wrapper_inner(many))
            &&& s.owner == OwnerKind::SharedOwnership
            &&& !s.optional && s.many && !s.lazy
            &&& spec_cardinality(s) == Cardinality::ZeroOrMore
            &&& has_declaration(s)
            &&& spec_render_retrieval(s) == "sp . get_all :: < "@ + spec_render_type(
                wrapper_inner(wrapper_inner(many)),
            ) + " > () . collect ()"@
        },
{
    lemma_wrapper_names_distinct();
    assert(!is_wrapper(many, "Lazy"@));
    assert(!is_wrapper(many, "Option"@));
}

/// Classification preserves the original left-to-right parameter order: the
/// shape at each position comes from the parameter at that position.
pub proof fn lemma_order_preserved(params: Seq<TypeExpr>, idx: usize, shapes: Seq<ParamShape>)
    requires
        idx + params.len() <= usize::MAX,
        spec_classify_all(params, idx) == Ok::<Seq<ParamShape>, DiError>(shapes),
    ensures
        shapes.len() == params.len(),
        forall|k: int|
            0 <= k < params.len() ==> spec_classify(params[k], (idx + k) as usize) == Ok::<
                ParamShape,
                DiError,
            >(shapes[k]),
    decreases params.len(),
{
    if params.len() > 0 {
        let tail = params.subrange(1, params.len() as int);
        let s0 = spec_classify(params[0], idx)->Ok_0;
        let rest = spec_classify_all(tail, (idx + 1) as usize)->Ok_0;
        lemma_order_preserved(tail, (idx + 1) as usize, rest);
        assert(shapes == seq![s0] + rest);
        assert(forall|k: int| 1 <= k < params.len() ==> params[k] == tail[k - 1]);
        assert(forall|k: int| 1 <= k < shapes.len() ==> shapes[k] == rest[k - 1]);
    }
}

/// Appending one classified parameter extends the declaration chain on the
/// right: declarations keep the parameter order.
pub proof fn lemma_deps_ordered(shapes: Seq<ParamShape>, s: ParamShape)
    ensures
        spec_render_deps(shapes.push(s)) == spec_render_deps(shapes) + if has_declaration(s) {
            " . depends_on ("@ + spec_render_declaration(s) + ")"@
        } else {
            Seq::<char>::empty()
        },
{
    assert(shapes.push(s).drop_last() =~= shapes);
    assert(shapes.push(s).last() == s);
}

/// Appending one classified parameter extends the factory-call arguments on
/// the right: call-site arguments keep the parameter order.
pub proof fn lemma_factory_args_ordered(shapes: Seq<ParamShape>, s: ParamShape)
    ensures
        spec_render_factory_args(shapes.push(s)) == if shapes.len() == 0 {
            spec_render_retrieval(s)
        } else {
            spec_render_factory_args(shapes) + " , "@ + spec_render_retrieval(s)
        },
{
    assert(shapes.push(s).drop_last() =~= shapes);
    assert(shapes.push(s).last() == s);
}

/// With no alias argument, and with an alias whose simple name equals the
/// implementing type's, the registration is a self-registration: no separate
/// dynamic target type is emitted and the builder uses the implementing
/// identity on both of its type parameters.
pub proof fn lemma_self_registration(alias: Option<TypePath>, implementing: TypePath)
    requires
        alias matches Some(a) ==> spec_simple_name(a) == spec_simple_name(implementing),
    ensures
        spec_target(alias, implementing) is None,
        spec_render_builder(spec_target(alias, implementing))
            == "di :: ServiceDescriptorBuilder :: < Self , Self > :: new (lifetime , di :: Type :: of :: < Self > ())"@,
{
}

/// With an alias whose simple name differs from the implementing type's
/// simple name, the generated code uses the dynamic target type on one
/// builder parameter and the implementing identity on the other. The
/// comparison is name-based only.
pub proof fn lemma_alias_registration(alias: TypePath, implementing: TypePath)
    requires
        spec_simple_name(alias) != spec_simple_name(implementing),
    ensures
        spec_target(Some(alias), implementing) == Some(alias),
        spec_render_builder(spec_target(Some(alias), implementing))
            == "di :: ServiceDescriptorBuilder :: < dyn "@ + spec_render_segments(alias.segments@)
            + " , Self > :: new (lifetime , di :: Type :: of :: < Self > ())"@,
{
}

/// The construct's generic parameter list and constraint clause are copied
/// verbatim onto the generated registration code: the rendered registration
/// embeds both texts unchanged, between fixed surroundings.
pub proof fn lemma_generics_copied_verbatim(
    target: Option<TypePath>,
    implementing: TypePath,
    generics: Seq<char>,
    where_clause: Seq<char>,
    ctor: Seq<char>,
    shapes: Seq<ParamShape>,
)
    requires
        generics.len() > 0,
        where_clause.len() > 0,
    ensures
        crate::assemble::spec_render_registration(
            target,
            implementing,
            generics,
            where_clause,
            ctor,
            shapes,
        ) == "impl "@ + generics + " "@ + "di :: Injectable for "@ + spec_render_segments(
            implementing.segments@,
        ) + " "@ + where_clause + " "@
            + "{ fn inject (lifetime : di :: ServiceLifetime) -> di :: ServiceDescriptor { "@
            + spec_render_builder(target) + spec_render_deps(shapes)
            + " . from (| sp : & di :: ServiceProvider | di :: ServiceRef :: new (Self :: "@
            + ctor + " ("@ + spec_render_factory_args(shapes) + "))) } }"@,
{
    assert(crate::assemble::spec_render_registration(
        target,
        implementing,
        generics,
        where_clause,
        ctor,
        shapes,
    ) =~= "impl "@ + generics + " "@ + "di :: Injectable for "@ + spec_render_segments(
        implementing.segments@,
    ) + " "@ + where_clause + " "@
        + "{ fn inject (lifetime : di :: ServiceLifetime) -> di :: ServiceDescriptor { "@
        + spec_render_builder(target) + spec_render_deps(shapes)
        + " . from (| sp : & di :: ServiceProvider | di :: ServiceRef :: new (Self :: "@ + ctor
        + " ("@ + spec_render_factory_args(shapes) + "))) } }"@);
}

/// Concrete dependency targets produce the same call-site and declaration
/// shapes as trait-like targets: for equal wrapper flags the rendered texts
/// share one prefix and one suffix and differ only in the identity between
/// them.
pub proof fn lemma_target_kinds_parallel(s1: ParamShape, s2: ParamShape)
    requires
        s1.owner == OwnerKind::SharedOwnership,
        s2.owner == OwnerKind::SharedOwnership,
        s1.optional == s2.optional,
        s1.many == s2.many,
        s1.lazy == s2.lazy,
    ensures
        spec_cardinality(s1) == spec_cardinality(s2),
        has_declaration(s1) && has_declaration(s2),
        spec_render_retrieval(s1) == spec_retrieval_prefix(s1.lazy, spec_cardinality(s1))
            + spec_render_type(s1.base) + spec_retrieval_suffix(s1.lazy, spec_cardinality(s1)),
        spec_render_retrieval(s2) == spec_retrieval_prefix(s1.lazy, spec_cardinality(s1))
            + spec_render_type(s2.base) + spec_retrieval_suffix(s1.lazy, spec_cardinality(s1)),
        spec_render_declaration(s1) == "di :: ServiceDependency :: new (di :: Type :: of :: < "@
            + spec_render_type(s1.base) + (" > () , "@ + spec_render_cardinality(
            spec_cardinality(s1),
        ) + ")"@),
        spec_render_declaration(s2) == "di :: ServiceDependency :: new (di :: Type :: of :: < "@
            + spec_render_type(s2.base) + (" > () , "@ + spec_render_cardinality(
            spec_cardinality(s1),
        ) + ")"@),
{
    crate::callsite::lemma_retrieval_template(s1);
    crate::callsite::lemma_retrieval_template(s2);
    crate::callsite::lemma_declaration_template(s1);
    crate::callsite::lemma_declaration_template(s2);
}

/// Each cardinality has a deferred counterpart that calls the
/// cardinality-specific deferred-accessor constructor over a cloned provider
/// handle, with the dependency declaration left unchanged.
pub proof fn lemma_deferred_counterpart(s: ParamShape, d: ParamShape)
    requires
        s.owner == OwnerKind::SharedOwnership,
        !s.lazy,
        d == (ParamShape { lazy: true, ..s }),
    ensures
        spec_cardinality(d) == spec_cardinality(s),
        spec_render_declaration(d) == spec_render_declaration(s),
        spec_render_retrieval(d) == (match spec_cardinality(s) {
            Cardinality::ExactlyOne => {
                "di :: lazy :: exactly_one :: < "@ + spec_render_type(s.base) + " > (sp . clone ())"@
            },
            Cardinality::ZeroOrOne => {
                "di :: lazy :: zero_or_one :: < "@ + spec_render_type(s.base) + " > (sp . clone ())"@
            },
            Cardinality::ZeroOrMore => {
                "di :: lazy :: zero_or_more :: < "@ + spec_render_type(s.base)
                    + " > (sp . clone ())"@
            },
        }),
{
}

/// A parameter typed as an optional collection fails classification with the
/// invalid-optional-multiplicity diagnostic, regardless of what the
/// collection holds.
pub proof fn lemma_optional_of_collection_rejected(t: TypeExpr, idx: usize)
    requires
        is_wrapper(t, "Option"@),
        is_wrapper(wrapper_inner(t), "Vec"@),
    ensures
        spec_classify(t, idx) == Err::<ParamShape, DiError>(
            DiError::InvalidOptionalMultiplicity(idx),
        ),
{
    lemma_wrapper_names_distinct();
    assert(!is_wrapper(t, "Lazy"@));
}

} // verus!
