//! Assembly of the registration: the selected construction function plus its
//! per-parameter call sites folded into one registration plan, and the plan
//! rendered as the final registration code.
//!
//! Any failure from selection or classification aborts the whole generation;
//! no partial output is produced.

use vstd::prelude::*;

use crate::classify::{classify, spec_classify, ParamShape};
use crate::callsite::{
    has_declaration, render_declaration, render_retrieval, spec_render_declaration,
    spec_render_retrieval,
};
use crate::error::DiError;
use crate::locate::{select_constructor, spec_select};
use crate::model::{simple_name, spec_simple_name, ImplBlock, TypeExpr, TypePath};
use crate::render::{render_path, spec_render_segments};

verus! {

/// The assembled registration: everything the final code is rendered from.
/// The dependencies stand in the original parameter order.
pub struct RegistrationPlan {
    /// The alias (trait-like) target when one applies, or nothing for a
    /// self-registration.
    pub target: Option<TypePath>,
    /// The implementing identity.
    pub implementing: TypePath,
    /// The construct's generic parameter list, copied verbatim.
    pub generics: String,
    /// The construct's constraint clause, copied verbatim.
    pub where_clause: String,
    /// The name of the selected construction function.
    pub ctor: String,
    /// The classified parameters of the construction function, in order.
    pub dependencies: Vec<ParamShape>,
}

/// The registration target: the alias when its simple name differs from the
/// implementing type's simple name, and a self-registration otherwise. The
/// comparison is name-based, not full-path-based.
pub open spec fn spec_target(alias: Option<TypePath>, implementing: TypePath) -> Option<
    TypePath,
> {
    match alias {
        Some(a) => {
            if spec_simple_name(a) == spec_simple_name(implementing) {
                None
            } else {
                Some(a)
            }
        },
        None => None,
    }
}

/// Classification of every parameter in order, at positions starting from
/// `idx`; the first failure aborts the whole sequence.
pub open spec fn spec_classify_all(params: Seq<TypeExpr>, idx: usize) -> Result<
    Seq<ParamShape>,
    DiError,
>
    decreases params.len(),
{
    if params.len() == 0 {
        Ok(Seq::empty())
    } else {
        match spec_classify(params[0], idx) {
            Ok(s) => match spec_classify_all(
                params.subrange(1, params.len() as int),
                (idx + 1) as usize,
            ) {
                Ok(rest) => Ok(seq![s] + rest),
                Err(e) => Err(e),
            },
            Err(e) => Err(e),
        }
    }
}

/// When every parameter classifies, the whole sequence classifies to the
/// shapes in order.
proof fn lemma_classify_all_ok(params: Seq<TypeExpr>, idx: usize, shapes: Seq<ParamShape>)
    requires
        idx + params.len() <= usize::MAX,
        shapes.len() == params.len(),
        forall|k: int|
            0 <= k < params.len() ==> spec_classify(params[k], (idx + k) as usize) == Ok::<
                ParamShape,
                DiError,
            >(shapes[k]),
    ensures
        spec_classify_all(params, idx) == Ok::<Seq<ParamShape>, DiError>(shapes),
    decreases params.len(),
{
    if params.len() == 0 {
        assert(shapes =~= Seq::<ParamShape>::empty());
    } else {
        let tail = params.subrange(1, params.len() as int);
        let stail = shapes.subrange(1, shapes.len() as int);
        assert(spec_classify(params[0], idx) == Ok::<ParamShape, DiError>(shapes[0]));
        assert(forall|k: int|
            0 <= k < tail.len() ==> spec_classify(tail[k], ((idx + 1) as usize + k) as usize)
                == Ok::<ParamShape, DiError>(stail[k]));
        lemma_classify_all_ok(tail, (idx + 1) as usize, stail);
        assert(seq![shapes[0]] + stail =~= shapes);
    }
}

/// When the parameter at `k` fails to classify and every earlier one
/// classifies, the whole sequence fails with that error.
proof fn lemma_classify_all_err(params: Seq<TypeExpr>, idx: usize, k: int, e: DiError)
    requires
        idx + params.len() <= usize::MAX,
        0 <= k < params.len(),
        spec_classify(params[k], (idx + k) as usize) == Err::<ParamShape, DiError>(e),
        forall|j: int| 0 <= j < k ==> spec_classify(params[j], (idx + j) as usize) is Ok,
    ensures
        spec_classify_all(params, idx) == Err::<Seq<ParamShape>, DiError>(e),
    decreases params.len(),
{
    let tail = params.subrange(1, params.len() as int);
    if k == 0 {
    } else {
        assert(spec_classify(params[0], idx) is Ok);
        assert(forall|j: int|
            0 <= j < k - 1 ==> spec_classify(tail[j], ((idx + 1) as usize + j) as usize) is Ok);
        assert(spec_classify(tail[k - 1], ((idx + 1) as usize + (k - 1)) as usize) == Err::<
            ParamShape,
            DiError,
        >(e));
        lemma_classify_all_err(tail, (idx + 1) as usize, k - 1, e);
    }
}

/// A generation target is valid when the implementing identity, and the
/// alias when one is supplied, are paths with at least one segment; anything
/// else is not an implementation block of a named type.
pub open spec fn spec_valid_target(block: ImplBlock, alias: Option<TypePath>) -> bool {
    &&& block.self_path.segments@.len() >= 1
    &&& (alias matches Some(a) ==> a.segments@.len() >= 1)
}

/// Whether building a plan for `block` with `alias` yields `plan`: the
/// target is valid, the selection succeeds, every parameter of the selected
/// construction function classifies to the plan's dependencies in order,
/// and the identities, generics and constraint clause are carried over
/// unchanged.
pub open spec fn spec_build_ok(
    block: ImplBlock,
    alias: Option<TypePath>,
    plan: RegistrationPlan,
) -> bool {
    &&& spec_valid_target(block, alias)
    &&& spec_select(block.methods@) matches Ok(i) && {
        &&& spec_classify_all(block.methods@[i].params@, 0) == Ok::<Seq<ParamShape>, DiError>(
            plan.dependencies@,
        )
        &&& plan.ctor == block.methods@[i].name
    }
    &&& plan.target == spec_target(alias, block.self_path)
    &&& plan.implementing == block.self_path
    &&& plan.generics == block.generics
    &&& plan.where_clause == block.where_clause
}

/// Whether building a plan for `block` fails with `e`: an invalid target is
/// malformed; otherwise either selection fails with `e`, or selection
/// succeeds and classification fails with `e`.
pub open spec fn spec_build_err(block: ImplBlock, alias: Option<TypePath>, e: DiError) -> bool {
    if !spec_valid_target(block, alias) {
        e == DiError::MalformedTarget
    } else {
        ||| spec_select(block.methods@) == Err::<int, DiError>(e)
        ||| (spec_select(block.methods@) matches Ok(i) && spec_classify_all(
            block.methods@[i].params@,
            0,
        ) == Err::<Seq<ParamShape>, DiError>(e))
    }
}

/// Builds the registration plan for an annotated implementation block.
pub fn build_plan(block: ImplBlock, alias: Option<TypePath>) -> (r: Result<
    RegistrationPlan,
    DiError,
>)
    ensures
        match r {
            Ok(plan) => spec_build_ok(block, alias, plan),
            Err(e) => spec_build_err(block, alias, e),
        },
{
    let valid = match &alias {
        Some(a) => a.segments.len() >= 1,
        None => true,
    };
    if block.self_path.segments.len() == 0 || !valid {
        return Err(DiError::MalformedTarget);
    }
    let idx = match select_constructor(&block.methods) {
        Ok(i) => i,
        Err(e) => {
            return Err(e);
        },
    };
    let mut methods = block.methods;
    let m = methods.remove(idx);
    let mut params = m.params;
    let ghost orig: Seq<TypeExpr> = params@;
    // The vector's length is a machine integer; reading it bounds the ghost
    // sequence's length for the loop invariant below.
    let n: usize = params.len();
    proof {
        assert(orig.len() == n);
    }
    let mut shapes: Vec<ParamShape> = Vec::new();
    let mut i: usize = 0;
    while params.len() > 0
        invariant
            orig.len() <= usize::MAX,
            spec_valid_target(block, alias),
            spec_select(block.methods@) == Ok::<int, DiError>(idx as int),
            idx < block.methods@.len(),
            orig == block.methods@[idx as int].params@,
            i + params@.len() == orig.len(),
            params@ == orig.subrange(i as int, orig.len() as int),
            shapes@.len() == i,
            forall|k: int|
                0 <= k < i ==> spec_classify(orig[k], k as usize) == Ok::<ParamShape, DiError>(
                    shapes@[k],
                ),
        decreases params@.len(),
    {
        let t = params.remove(0);
        proof {
            assert(t == orig[i as int]);
        }
        match classify(t, i) {
            Ok(s) => {
                shapes.push(s);
                i = i + 1;
                proof {
                    assert(params@ =~= orig.subrange(i as int, orig.len() as int));
                }
            },
            Err(e) => {
                proof {
                    lemma_classify_all_err(orig, 0, i as int, e);
                }
                return Err(e);
            },
        }
    }
    proof {
        lemma_classify_all_ok(orig, 0, shapes@);
    }
    let target: Option<TypePath> = match alias {
        Some(a) => {
            if *simple_name(&a) == *simple_name(&block.self_path) {
                None
            } else {
                Some(a)
            }
        },
        None => None,
    };
    Ok(
        RegistrationPlan {
            target,
            implementing: block.self_path,
            generics: block.generics,
            where_clause: block.where_clause,
            ctor: m.name,
            dependencies: shapes,
        },
    )
}

/// The source text of the declaration chain: one `depends_on` link per
/// dependency, in the original parameter order.
pub open spec fn spec_render_deps(shapes: Seq<ParamShape>) -> Seq<char>
    decreases shapes.len(),
{
    if shapes.len() == 0 {
        Seq::empty()
    } else {
        spec_render_deps(shapes.drop_last()) + if has_declaration(shapes.last()) {
            " . depends_on ("@ + spec_render_declaration(shapes.last()) + ")"@
        } else {
            Seq::<char>::empty()
        }
    }
}

/// The source text of the factory-call arguments: the retrieval expressions
/// joined by commas, in the original parameter order.
pub open spec fn spec_render_factory_args(shapes: Seq<ParamShape>) -> Seq<char>
    decreases shapes.len(),
{
    if shapes.len() == 0 {
        Seq::empty()
    } else if shapes.len() == 1 {
        spec_render_retrieval(shapes[0])
    } else {
        spec_render_factory_args(shapes.drop_last()) + " , "@ + spec_render_retrieval(
            shapes.last(),
        )
    }
}

/// The source text of the builder call: an alias registration names the
/// dynamic target type, a self-registration uses the implementing type on
/// both sides.
pub open spec fn spec_render_builder(target: Option<TypePath>) -> Seq<char> {
    match target {
        Some(p) => {
            "di :: ServiceDescriptorBuilder :: < dyn "@ + spec_render_segments(p.segments@)
                + " , Self > :: new (lifetime , di :: Type :: of :: < Self > ())"@
        },
        None => {
            "di :: ServiceDescriptorBuilder :: < Self , Self > :: new (lifetime , di :: Type :: of :: < Self > ())"@
        },
    }
}

/// The source text of the whole registration: the trait implementation
/// holding one injection function that chains the builder, the declaration
/// links and the factory closure.
pub open spec fn spec_render_registration(
    target: Option<TypePath>,
    implementing: TypePath,
    generics: Seq<char>,
    where_clause: Seq<char>,
    ctor: Seq<char>,
    shapes: Seq<ParamShape>,
) -> Seq<char> {
    "impl "@ + (if generics.len() == 0 {
        Seq::<char>::empty()
    } else {
        generics + " "@
    }) + "di :: Injectable for "@ + spec_render_segments(implementing.segments@) + " "@ + (
    if where_clause.len() == 0 {
        Seq::<char>::empty()
    } else {
        where_clause + " "@
    }) + "{ fn inject (lifetime : di :: ServiceLifetime) -> di :: ServiceDescriptor { "@
        + spec_render_builder(target) + spec_render_deps(shapes)
        + " . from (| sp : & di :: ServiceProvider | di :: ServiceRef :: new (Self :: "@ + ctor
        + " ("@ + spec_render_factory_args(shapes) + "))) } }"@
}

/// The source text of a plan.
pub open spec fn spec_render_plan(plan: RegistrationPlan) -> Seq<char> {
    spec_render_registration(
        plan.target,
        plan.implementing,
        plan.generics@,
        plan.where_clause@,
        plan.ctor@,
        plan.dependencies@,
    )
}

/// The whole generation as one function from the annotated block and the
/// alias argument to the registration code or the diagnostic.
pub open spec fn spec_generate(block: ImplBlock, alias: Option<TypePath>) -> Result<
    Seq<char>,
    DiError,
> {
    if !spec_valid_target(block, alias) {
        Err(DiError::MalformedTarget)
    } else {
        spec_generate_valid(block, alias)
    }
}

/// The generation pipeline on a valid target: selection, classification,
/// rendering.
pub open spec fn spec_generate_valid(block: ImplBlock, alias: Option<TypePath>) -> Result<
    Seq<char>,
    DiError,
> {
    match spec_select(block.methods@) {
        Ok(i) => match spec_classify_all(block.methods@[i].params@, 0) {
            Ok(shapes) => Ok(
                spec_render_registration(
                    spec_target(alias, block.self_path),
                    block.self_path,
                    block.generics@,
                    block.where_clause@,
                    block.methods@[i].name@,
                    shapes,
                ),
            ),
            Err(e) => Err(e),
        },
        Err(e) => Err(e),
    }
}

/// Renders a plan as the final registration code.
pub fn render_plan(plan: &RegistrationPlan) -> (r: String)
    ensures
        r@ == spec_render_plan(*plan),
{
    let shapes = &plan.dependencies;
    let mut deps_text = String::new();
    let mut i: usize = 0;
    while i < shapes.len()
        invariant
            0 <= i <= shapes@.len(),
            deps_text@ == spec_render_deps(shapes@.take(i as int)),
        decreases shapes@.len() - i,
    {
        proof {
            assert(shapes@.take(i as int + 1).drop_last() =~= shapes@.take(i as int));
            assert(shapes@.take(i as int + 1).last() == shapes@[i as int]);
        }
        match render_declaration(&shapes[i]) {
            Some(d) => {
                deps_text.append(" . depends_on (");
                deps_text.append(d.as_str());
                deps_text.append(")");
            },
            None => {
                proof {
                    assert(deps_text@ + Seq::<char>::empty() =~= deps_text@);
                }
            },
        }
        i = i + 1;
    }
    proof {
        assert(shapes@.take(shapes@.len() as int) =~= shapes@);
    }
    let mut args_text = String::new();
    let mut j: usize = 0;
    while j < shapes.len()
        invariant
            0 <= j <= shapes@.len(),
            args_text@ == spec_render_factory_args(shapes@.take(j as int)),
        decreases shapes@.len() - j,
    {
        proof {
            assert(shapes@.take(j as int + 1).drop_last() =~= shapes@.take(j as int));
            assert(shapes@.take(j as int + 1).last() == shapes@[j as int]);
        }
        if j > 0 {
            args_text.append(" , ");
        }
        let piece = render_retrieval(&shapes[j]);
        args_text.append(piece.as_str());
        j = j + 1;
    }
    proof {
        assert(shapes@.take(shapes@.len() as int) =~= shapes@);
    }
    let mut out = String::from_str("impl ");
    if !plan.generics.as_str().is_empty() {
        out.append(plan.generics.as_str());
        out.append(" ");
    } else {
        proof {
            assert(out@ + Seq::<char>::empty() =~= out@);
        }
    }
    out.append("di :: Injectable for ");
    let implementing = render_path(&plan.implementing);
    out.append(implementing.as_str());
    out.append(" ");
    if !plan.where_clause.as_str().is_empty() {
        out.append(plan.where_clause.as_str());
        out.append(" ");
    } else {
        proof {
            assert(out@ + Seq::<char>::empty() =~= out@);
        }
    }
    out.append("{ fn inject (lifetime : di :: ServiceLifetime) -> di :: ServiceDescriptor { ");
    match &plan.target {
        Some(p) => {
            out.append("di :: ServiceDescriptorBuilder :: < dyn ");
            let target = render_path(p);
            out.append(target.as_str());
            out.append(" , Self > :: new (lifetime , di :: Type :: of :: < Self > ())");
        },
        None => {
            out.append(
                "di :: ServiceDescriptorBuilder :: < Self , Self > :: new (lifetime , di :: Type :: of :: < Self > ())",
            );
        },
    }
    out.append(deps_text.as_str());
    out.append(" . from (| sp : & di :: ServiceProvider | di :: ServiceRef :: new (Self :: ");
    out.append(plan.ctor.as_str());
    out.append(" (");
    out.append(args_text.as_str());
    out.append("))) } }");
    out
}

/// Generates the registration code for an annotated implementation block,
/// or the diagnostic that replaces it.
pub fn generate(block: ImplBlock, alias: Option<TypePath>) -> (r: Result<String, DiError>)
    ensures
        match r {
            Ok(s) => spec_generate(block, alias) == Ok::<Seq<char>, DiError>(s@),
            Err(e) => spec_generate(block, alias) == Err::<Seq<char>, DiError>(e),
        },
{
    match build_plan(block, alias) {
        Ok(plan) => {
            let s = render_plan(&plan);
            Ok(s)
        },
        Err(e) => Err(e),
    }
}

} // verus!
