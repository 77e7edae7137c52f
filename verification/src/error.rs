//! The diagnostics the generator can report. Every failure aborts the whole
//! generation for the annotated construct; no partial output is produced.

use vstd::prelude::*;

verus! {

/// A generation failure, reported as a diagnostic for the annotated
/// construct. The payload of the two parameter errors is the zero-based
/// position of the offending parameter.
#[derive(Clone, Copy, Debug, PartialEq, Eq, Structural)]
pub enum DiError {
    /// The annotation was applied to something other than an
    /// implementation block of a named type.
    MalformedTarget,
    /// No marked function and no conventionally named function was found.
    MissingInjectionPoint,
    /// More than one function carries the injection marker.
    AmbiguousInjectionPoint,
    /// A parameter's type expression matches no recognized dependency shape.
    UnsupportedParameterType(usize),
    /// A parameter combines the optionality wrapper with the multiplicity
    /// wrapper, which is always rejected.
    InvalidOptionalMultiplicity(usize),
}

/// The diagnostic text for an error, where `owner` is the simple name of the
/// implementing type.
pub open spec fn spec_message(e: DiError, owner: Seq<char>) -> Seq<char> {
    match e {
        DiError::MalformedTarget => {
            "Attribute can only be applied to a structure implementation block."@
        },
        DiError::MissingInjectionPoint => {
            "Neither "@ + owner
                + "::new or an associated method decorated with #[inject] was found."@
        },
        DiError::AmbiguousInjectionPoint => {
            owner + " has more than one associated method decorated with #[inject]."@
        },
        DiError::UnsupportedParameterType(_) => "Expected ServiceRef, Rc, or Arc."@,
        DiError::InvalidOptionalMultiplicity(_) => {
            "Option<Vec> is not supported. Did you mean Vec?"@
        },
    }
}

impl DiError {
    /// Renders the diagnostic text for this error; `owner` is the simple
    /// name of the implementing type.
    pub fn message(&self, owner: &str) -> (r: String)
        ensures
            r@ == spec_message(*self, owner@),
    {
        match self {
            DiError::MalformedTarget => {
                String::from_str("Attribute can only be applied to a structure implementation block.")
            },
            DiError::MissingInjectionPoint => {
                let mut m = String::from_str("Neither ");
                m.append(owner);
                m.append("::new or an associated method decorated with #[inject] was found.");
                m
            },
            DiError::AmbiguousInjectionPoint => {
                let mut m = String::from_str(owner);
                m.append(" has more than one associated method decorated with #[inject].");
                m
            },
            DiError::UnsupportedParameterType(_) => {
                String::from_str("Expected ServiceRef, Rc, or Arc.")
            },
            DiError::InvalidOptionalMultiplicity(_) => {
                String::from_str("Option<Vec> is not supported. Did you mean Vec?")
            },
        }
    }
}

} // verus!
