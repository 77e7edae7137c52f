//! Classification of one parameter's declared type expression into a
//! normalized dependency shape.
//!
//! Wrapper layers are peeled in a fixed outer-to-inner order: the deferred
//! wrapper `Lazy`, then the optionality wrapper `Option`, then the
//! multiplicity wrapper `Vec`, and finally one of the interchangeable
//! shared-ownership wrappers `ServiceRef`, `Rc` or `Arc`, whose argument is
//! the dependency's identity. A type that, after peeling, is the provider
//! handle `ServiceProvider` is passed through without a declaration. Any
//! other shape is rejected.

use vstd::prelude::*;

use crate::error::DiError;
use crate::model::{PathSegment, TypeExpr, TypePath};

verus! {

/// How a recognized parameter receives its value.
#[derive(Clone, Copy, Debug, PartialEq, Eq, Structural)]
pub enum OwnerKind {
    /// A dependency held through a shared-ownership wrapper.
    SharedOwnership,
    /// The provider handle itself, handed through unchanged.
    ProviderPassthrough,
}

/// How many instances a dependency declaration expects to resolve.
#[derive(Clone, Copy, Debug, PartialEq, Eq, Structural)]
pub enum Cardinality {
    ExactlyOne,
    ZeroOrOne,
    ZeroOrMore,
}

/// The normalized classification of one parameter.
pub struct ParamShape {
    /// The dependency's identity: a named type or a trait object. For a
    /// provider passthrough this is the provider-handle path itself.
    pub base: TypeExpr,
    /// The optionality wrapper was present.
    pub optional: bool,
    /// The multiplicity wrapper was present.
    pub many: bool,
    /// The deferred wrapper was present.
    pub lazy: bool,
    pub owner: OwnerKind,
}

/// The cardinality a shape declares: optional gives zero-or-one, a
/// collection gives zero-or-more, otherwise exactly one.
pub open spec fn spec_cardinality(s: ParamShape) -> Cardinality {
    if s.optional {
        Cardinality::ZeroOrOne
    } else if s.many {
        Cardinality::ZeroOrMore
    } else {
        Cardinality::ExactlyOne
    }
}

/// True when `t` is a path whose first segment is named `name` and carries
/// at least one generic type argument.
pub open spec fn is_wrapper(t: TypeExpr, name: Seq<char>) -> bool {
    &&& t matches TypeExpr::Path(p)
    &&& p.segments@.len() >= 1
    &&& p.segments@[0].name@ == name
    &&& p.segments@[0].args@.len() >= 1
}

/// The first generic argument of the first segment: the expression a
/// wrapper wraps.
pub open spec fn wrapper_inner(t: TypeExpr) -> TypeExpr {
    match t {
        TypeExpr::Path(p) => p.segments@[0].args@[0],
        _ => t,
    }
}

/// Strips one wrapper layer named `name` if it is present.
pub open spec fn spec_peel(t: TypeExpr, name: Seq<char>) -> (TypeExpr, bool) {
    if is_wrapper(t, name) {
        (wrapper_inner(t), true)
    } else {
        (t, false)
    }
}

/// True when `t` is wrapped in one of the interchangeable shared-ownership
/// wrappers.
pub open spec fn is_shared_wrapper(t: TypeExpr) -> bool {
    ||| is_wrapper(t, "ServiceRef"@)
    ||| is_wrapper(t, "Rc"@)
    ||| is_wrapper(t, "Arc"@)
}

/// True when `t` is the runtime's provider-handle type: a path whose first
/// segment is named `ServiceProvider`.
pub open spec fn is_provider_handle(t: TypeExpr) -> bool {
    &&& t matches TypeExpr::Path(p)
    &&& p.segments@.len() >= 1
    &&& p.segments@[0].name@ == "ServiceProvider"@
}

/// The classification of one parameter whose zero-based position is `idx`.
///
/// Peels `Lazy`, then `Option`, then `Vec`; optional combined with a
/// collection is always rejected. What remains must be a shared-ownership
/// wrapper around a named type or a trait object, or the provider handle;
/// everything else is unsupported.
pub open spec fn spec_classify(t: TypeExpr, idx: usize) -> Result<ParamShape, DiError> {
    let (t1, lazy) = spec_peel(t, "Lazy"@);
    let (t2, optional) = spec_peel(t1, "Option"@);
    let (t3, many) = spec_peel(t2, "Vec"@);
    if optional && many {
        Err(DiError::InvalidOptionalMultiplicity(idx))
    } else if is_shared_wrapper(t3) {
        let base = wrapper_inner(t3);
        if base is Path || base is TraitObject {
            Ok(
                ParamShape {
                    base,
                    optional,
                    many,
                    lazy,
                    owner: OwnerKind::SharedOwnership,
                },
            )
        } else {
            Err(DiError::UnsupportedParameterType(idx))
        }
    } else if is_provider_handle(t3) {
        Ok(
            ParamShape {
                base: t3,
                optional: false,
                many: false,
                lazy: false,
                owner: OwnerKind::ProviderPassthrough,
            },
        )
    } else {
        Err(DiError::UnsupportedParameterType(idx))
    }
}

/// Compares two string slices for equality of their character sequences.
fn str_eq(a: &str, b: &str) -> (r: bool)
    ensures
        r == (a@ == b@),
{
    let x = String::from_str(a);
    let y = String::from_str(b);
    x == y
}

/// Strips one wrapper layer named `name` if it is present, handing back the
/// wrapped expression, or the unchanged input otherwise.
fn peel(t: TypeExpr, name: &str) -> (r: (TypeExpr, bool))
    ensures
        r == spec_peel(t, name@),
{
    let wrapped = match &t {
        TypeExpr::Path(p) => {
            p.segments.len() >= 1 && str_eq(p.segments[0].name.as_str(), name)
                && p.segments[0].args.len() >= 1
        },
        _ => false,
    };
    if wrapped {
        match t {
            TypeExpr::Path(p) => {
                let mut segments = p.segments;
                let mut first = segments.remove(0);
                let inner = first.args.remove(0);
                (inner, true)
            },
            other => (other, false),
        }
    } else {
        (t, false)
    }
}

/// True when `t` is a path whose first segment is named `name`, whether or
/// not it carries generic arguments.
fn first_segment_named(t: &TypeExpr, name: &str) -> (r: bool)
    ensures
        r == (t matches TypeExpr::Path(p) && p.segments@.len() >= 1 && p.segments@[0].name@
            == name@),
{
    match t {
        TypeExpr::Path(p) => p.segments.len() >= 1 && str_eq(p.segments[0].name.as_str(), name),
        _ => false,
    }
}

/// Classifies the parameter at zero-based position `idx` whose declared type
/// is `t`.
pub fn classify(t: TypeExpr, idx: usize) -> (r: Result<ParamShape, DiError>)
    ensures
        r == spec_classify(t, idx),
{
    let (t1, lazy) = peel(t, "Lazy");
    let (t2, optional) = peel(t1, "Option");
    let (t3, many) = peel(t2, "Vec");
    if optional && many {
        return Err(DiError::InvalidOptionalMultiplicity(idx));
    }
    let (base, shared) = {
        let (u, stripped) = peel(t3, "ServiceRef");
        if stripped {
            (u, true)
        } else {
            let (u, stripped) = peel(u, "Rc");
            if stripped {
                (u, true)
            } else {
                peel(u, "Arc")
            }
        }
    };
    if shared {
        let named = match &base {
            TypeExpr::Path(_) => true,
            TypeExpr::TraitObject(_) => true,
            TypeExpr::Verbatim(_) => false,
        };
        if named {
            Ok(
                ParamShape {
                    base,
                    optional,
                    many,
                    lazy,
                    owner: OwnerKind::SharedOwnership,
                },
            )
        } else {
            Err(DiError::UnsupportedParameterType(idx))
        }
    } else if first_segment_named(&base, "ServiceProvider") {
        Ok(
            ParamShape {
                base,
                optional: false,
                many: false,
                lazy: false,
                owner: OwnerKind::ProviderPassthrough,
            },
        )
    } else {
        Err(DiError::UnsupportedParameterType(idx))
    }
}

} // verus!
