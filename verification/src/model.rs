//! The syntactic model the generator works on: type expressions, method
//! signatures and implementation blocks, reduced to the shapes the
//! classification rules distinguish.

use vstd::prelude::*;

verus! {

/// One path segment: an identifier together with its generic type arguments,
/// e.g. `Rc` in `Rc<dyn Bar>` carries the single argument `dyn Bar`.
pub struct PathSegment {
    pub name: String,
    pub args: Vec<TypeExpr>,
}

/// A type path such as `Pair<TKey, TValue>`: a sequence of segments. A path
/// without segments names nothing and is rejected wherever one is required.
pub struct TypePath {
    pub segments: Vec<PathSegment>,
}

/// A parameter's declared type expression.
pub enum TypeExpr {
    /// A named type, concrete or a generic parameter.
    Path(TypePath),
    /// A trait object `dyn Path` with a single trait bound.
    TraitObject(TypePath),
    /// Any other syntactic shape, carried as raw source text.
    /// Such an expression is never classified as a dependency.
    Verbatim(String),
}

/// The simple (final) name of a path: the identifier of its last segment.
pub open spec fn spec_simple_name(p: TypePath) -> Seq<char>
    recommends
        p.segments@.len() >= 1,
{
    p.segments@.last().name@
}

/// Returns the simple name of a path, the identifier of its last segment.
pub fn simple_name(p: &TypePath) -> (r: &String)
    requires
        p.segments@.len() >= 1,
    ensures
        r@ == spec_simple_name(*p),
{
    &p.segments[p.segments.len() - 1].name
}

/// A member function of the implementation block, as far as selection and
/// generation need it: its name, whether it carries the injection marker,
/// and its parameter types in declaration order.
pub struct MethodSig {
    pub name: String,
    pub marked: bool,
    pub params: Vec<TypeExpr>,
}

/// An annotated implementation block: the implementing type, its generic
/// parameter list and constraint clause carried verbatim as source text,
/// and its member functions.
pub struct ImplBlock {
    pub self_path: TypePath,
    pub generics: String,
    pub where_clause: String,
    pub methods: Vec<MethodSig>,
}

} // verus!
