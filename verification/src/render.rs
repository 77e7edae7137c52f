//! Rendering of type expressions as source text.
//!
//! Tokens are joined by single spaces, with the path separator kept as one
//! token, the way the emitted registration code is spelled throughout.

use vstd::prelude::*;

use crate::model::{PathSegment, TypeExpr, TypePath};

verus! {

/// The source text of a type expression.
pub open spec fn spec_render_type(t: TypeExpr) -> Seq<char>
    decreases t,
{
    match t {
        TypeExpr::Path(p) => spec_render_segments(p.segments@),
        TypeExpr::TraitObject(p) => "dyn "@ + spec_render_segments(p.segments@),
        TypeExpr::Verbatim(s) => s@,
    }
}

/// The source text of a path: its segments joined by the path separator.
pub open spec fn spec_render_segments(ss: Seq<PathSegment>) -> Seq<char>
    decreases ss,
{
    if ss.len() == 0 {
        Seq::empty()
    } else if ss.len() == 1 {
        spec_render_segment(ss[0])
    } else {
        spec_render_segments(ss.drop_last()) + " :: "@ + spec_render_segment(ss.last())
    }
}

/// The source text of one segment: its name, with its generic arguments in
/// angle brackets when it has any.
pub open spec fn spec_render_segment(s: PathSegment) -> Seq<char>
    decreases s,
{
    if s.args@.len() == 0 {
        s.name@
    } else {
        s.name@ + " < "@ + spec_render_type_args(s.args@) + " >"@
    }
}

/// The source text of a generic-argument list: the arguments joined by
/// commas.
pub open spec fn spec_render_type_args(ts: Seq<TypeExpr>) -> Seq<char>
    decreases ts,
{
    if ts.len() == 0 {
        Seq::empty()
    } else if ts.len() == 1 {
        spec_render_type(ts[0])
    } else {
        spec_render_type_args(ts.drop_last()) + " , "@ + spec_render_type(ts.last())
    }
}

/// Renders a type expression as source text.
pub fn render_type(t: &TypeExpr) -> (r: String)
    ensures
        r@ == spec_render_type(*t),
    decreases t,
{
    match t {
        TypeExpr::Path(p) => render_segments(&p.segments),
        TypeExpr::TraitObject(p) => {
            let mut out = String::from_str("dyn ");
            let rest = render_segments(&p.segments);
            out.append(rest.as_str());
            out
        },
        TypeExpr::Verbatim(s) => s.clone(),
    }
}

/// Renders a path as source text.
pub fn render_path(p: &TypePath) -> (r: String)
    ensures
        r@ == spec_render_segments(p.segments@),
{
    render_segments(&p.segments)
}

/// Renders a segment list joined by the path separator.
fn render_segments(ss: &Vec<PathSegment>) -> (r: String)
    ensures
        r@ == spec_render_segments(ss@),
    decreases ss,
{
    let mut out = String::new();
    let mut i: usize = 0;
    while i < ss.len()
        invariant
            0 <= i <= ss@.len(),
            out@ == spec_render_segments(ss@.take(i as int)),
        decreases ss@.len() - i,
    {
        if i > 0 {
            out.append(" :: ");
        }
        let piece = render_segment(&ss[i]);
        out.append(piece.as_str());
        proof {
            assert(ss@.take(i as int + 1).drop_last() =~= ss@.take(i as int));
            assert(ss@.take(i as int + 1).last() == ss@[i as int]);
        }
        i = i + 1;
    }
    proof {
        assert(ss@.take(ss@.len() as int) =~= ss@);
    }
    out
}

/// Renders one segment.
fn render_segment(s: &PathSegment) -> (r: String)
    ensures
        r@ == spec_render_segment(*s),
    decreases s,
{
    if s.args.len() == 0 {
        s.name.clone()
    } else {
        let mut out = s.name.clone();
        out.append(" < ");
        let args = render_type_args(&s.args);
        out.append(args.as_str());
        out.append(" >");
        out
    }
}

/// Renders a generic-argument list joined by commas.
fn render_type_args(ts: &Vec<TypeExpr>) -> (r: String)
    ensures
        r@ == spec_render_type_args(ts@),
    decreases ts,
{
    let mut out = String::new();
    let mut i: usize = 0;
    while i < ts.len()
        invariant
            0 <= i <= ts@.len(),
            out@ == spec_render_type_args(ts@.take(i as int)),
        decreases ts@.len() - i,
    {
        if i > 0 {
            out.append(" , ");
        }
        let piece = render_type(&ts[i]);
        out.append(piece.as_str());
        proof {
            assert(ts@.take(i as int + 1).drop_last() =~= ts@.take(i as int));
            assert(ts@.take(i as int + 1).last() == ts@[i as int]);
        }
        i = i + 1;
    }
    proof {
        assert(ts@.take(ts@.len() as int) =~= ts@);
    }
    out
}

} // verus!
