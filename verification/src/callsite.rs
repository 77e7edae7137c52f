//! Generation of one classified parameter's call site: the expression that
//! retrieves its value inside the factory, and the dependency declaration
//! that accompanies it.
//!
//! The declaration is omitted only for the provider passthrough; the
//! provider handle is not itself a declared dependency. A deferred shape
//! calls a cardinality-specific deferred-accessor constructor over a cloned
//! provider handle instead of resolving eagerly.

use vstd::prelude::*;

use crate::classify::{spec_cardinality, Cardinality, OwnerKind, ParamShape};
use crate::render::{render_type, spec_render_type};

verus! {

/// The source text of a cardinality value.
pub open spec fn spec_render_cardinality(c: Cardinality) -> Seq<char> {
    match c {
        Cardinality::ExactlyOne => "di :: ServiceCardinality :: ExactlyOne"@,
        Cardinality::ZeroOrOne => "di :: ServiceCardinality :: ZeroOrOne"@,
        Cardinality::ZeroOrMore => "di :: ServiceCardinality :: ZeroOrMore"@,
    }
}

/// True when a shape contributes a dependency declaration; only the
/// provider passthrough does not.
pub open spec fn has_declaration(s: ParamShape) -> bool {
    s.owner is SharedOwnership
}

/// The source text of a shape's dependency declaration: its identity paired
/// with its cardinality.
pub open spec fn spec_render_declaration(s: ParamShape) -> Seq<char> {
    "di :: ServiceDependency :: new (di :: Type :: of :: < "@ + spec_render_type(s.base)
        + " > () , "@ + spec_render_cardinality(spec_cardinality(s)) + ")"@
}

/// The source text of a shape's value-retrieval expression.
pub open spec fn spec_render_retrieval(s: ParamShape) -> Seq<char> {
    match s.owner {
        OwnerKind::ProviderPassthrough => "sp . clone ()"@,
        OwnerKind::SharedOwnership => {
            if s.lazy {
                match spec_cardinality(s) {
                    Cardinality::ExactlyOne => {
                        "di :: lazy :: exactly_one :: < "@ + spec_render_type(s.base)
                            + " > (sp . clone ())"@
                    },
                    Cardinality::ZeroOrOne => {
                        "di :: lazy :: zero_or_one :: < "@ + spec_render_type(s.base)
                            + " > (sp . clone ())"@
                    },
                    Cardinality::ZeroOrMore => {
                        "di :: lazy :: zero_or_more :: < "@ + spec_render_type(s.base)
                            + " > (sp . clone ())"@
                    },
                }
            } else {
                match spec_cardinality(s) {
                    Cardinality::ExactlyOne => {
                        "sp . get_required :: < "@ + spec_render_type(s.base) + " > ()"@
                    },
                    Cardinality::ZeroOrOne => {
                        "sp . get :: < "@ + spec_render_type(s.base) + " > ()"@
                    },
                    Cardinality::ZeroOrMore => {
                        "sp . get_all :: < "@ + spec_render_type(s.base) + " > () . collect ()"@
                    },
                }
            }
        },
    }
}

/// The text standing before the identity in a retrieval expression; it
/// depends on the deferral flag and the cardinality alone.
pub open spec fn spec_retrieval_prefix(lazy: bool, c: Cardinality) -> Seq<char> {
    if lazy {
        match c {
            Cardinality::ExactlyOne => "di :: lazy :: exactly_one :: < "@,
            Cardinality::ZeroOrOne => "di :: lazy :: zero_or_one :: < "@,
            Cardinality::ZeroOrMore => "di :: lazy :: zero_or_more :: < "@,
        }
    } else {
        match c {
            Cardinality::ExactlyOne => "sp . get_required :: < "@,
            Cardinality::ZeroOrOne => "sp . get :: < "@,
            Cardinality::ZeroOrMore => "sp . get_all :: < "@,
        }
    }
}

/// The text standing after the identity in a retrieval expression; a
/// deferred shape closes over a cloned provider handle.
pub open spec fn spec_retrieval_suffix(lazy: bool, c: Cardinality) -> Seq<char> {
    if lazy {
        " > (sp . clone ())"@
    } else {
        match c {
            Cardinality::ZeroOrMore => " > () . collect ()"@,
            _ => " > ()"@,
        }
    }
}

/// A shared-ownership shape's retrieval expression is its identity framed by
/// a prefix and a suffix that depend on the deferral flag and the
/// cardinality alone, never on the identity's kind.
pub proof fn lemma_retrieval_template(s: ParamShape)
    requires
        s.owner == OwnerKind::SharedOwnership,
    ensures
        spec_render_retrieval(s) == spec_retrieval_prefix(s.lazy, spec_cardinality(s))
            + spec_render_type(s.base) + spec_retrieval_suffix(s.lazy, spec_cardinality(s)),
{
}

/// A shape's dependency declaration is its identity framed by a fixed prefix
/// and a suffix that depends on the cardinality alone, never on the
/// identity's kind and never on the deferral flag.
pub proof fn lemma_declaration_template(s: ParamShape)
    ensures
        spec_render_declaration(s) == "di :: ServiceDependency :: new (di :: Type :: of :: < "@
            + spec_render_type(s.base) + (" > () , "@ + spec_render_cardinality(
            spec_cardinality(s),
        ) + ")"@),
{
    assert(spec_render_declaration(s) =~= "di :: ServiceDependency :: new (di :: Type :: of :: < "@
        + spec_render_type(s.base) + (" > () , "@ + spec_render_cardinality(spec_cardinality(s))
        + ")"@));
}

/// The cardinality a shape declares.
pub fn cardinality_of(s: &ParamShape) -> (c: Cardinality)
    ensures
        c == spec_cardinality(*s),
{
    if s.optional {
        Cardinality::ZeroOrOne
    } else if s.many {
        Cardinality::ZeroOrMore
    } else {
        Cardinality::ExactlyOne
    }
}

/// Renders a shape's value-retrieval expression.
pub fn render_retrieval(s: &ParamShape) -> (r: String)
    ensures
        r@ == spec_render_retrieval(*s),
{
    match s.owner {
        OwnerKind::ProviderPassthrough => String::from_str("sp . clone ()"),
        OwnerKind::SharedOwnership => {
            let base = render_type(&s.base);
            if s.lazy {
                let mut out = match cardinality_of(s) {
                    Cardinality::ExactlyOne => String::from_str("di :: lazy :: exactly_one :: < "),
                    Cardinality::ZeroOrOne => String::from_str("di :: lazy :: zero_or_one :: < "),
                    Cardinality::ZeroOrMore => String::from_str("di :: lazy :: zero_or_more :: < "),
                };
                out.append(base.as_str());
                out.append(" > (sp . clone ())");
                out
            } else {
                match cardinality_of(s) {
                    Cardinality::ExactlyOne => {
                        let mut out = String::from_str("sp . get_required :: < ");
                        out.append(base.as_str());
                        out.append(" > ()");
                        out
                    },
                    Cardinality::ZeroOrOne => {
                        let mut out = String::from_str("sp . get :: < ");
                        out.append(base.as_str());
                        out.append(" > ()");
                        out
                    },
                    Cardinality::ZeroOrMore => {
                        let mut out = String::from_str("sp . get_all :: < ");
                        out.append(base.as_str());
                        out.append(" > () . collect ()");
                        out
                    },
                }
            }
        },
    }
}

/// Renders a shape's dependency declaration, or nothing for the provider
/// passthrough.
pub fn render_declaration(s: &ParamShape) -> (r: Option<String>)
    ensures
        match r {
            Some(d) => has_declaration(*s) && d@ == spec_render_declaration(*s),
            None => !has_declaration(*s),
        },
{
    match s.owner {
        OwnerKind::ProviderPassthrough => None,
        OwnerKind::SharedOwnership => {
            let mut out = String::from_str("di :: ServiceDependency :: new (di :: Type :: of :: < ");
            let base = render_type(&s.base);
            out.append(base.as_str());
            out.append(" > () , ");
            match cardinality_of(s) {
                Cardinality::ExactlyOne => out.append("di :: ServiceCardinality :: ExactlyOne"),
                Cardinality::ZeroOrOne => out.append("di :: ServiceCardinality :: ZeroOrOne"),
                Cardinality::ZeroOrMore => out.append("di :: ServiceCardinality :: ZeroOrMore"),
            }
            out.append(")");
            Some(out)
        },
    }
}

/// Turns one classified parameter into its pair of value-retrieval
/// expression and optional dependency declaration.
pub fn call_site(s: &ParamShape) -> (r: (String, Option<String>))
    ensures
        r.0@ == spec_render_retrieval(*s),
        match r.1 {
            Some(d) => has_declaration(*s) && d@ == spec_render_declaration(*s),
            None => !has_declaration(*s),
        },
{
    (render_retrieval(s), render_declaration(s))
}

} // verus!
