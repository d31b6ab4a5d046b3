use vstd::prelude::*;

use crate::path::{Path, PathSegment};
use crate::type_ref::{TypeBound, TypeRef};

verus! {

/// Every type reference in the tree rooted at `t`, in pre-order: `t` itself,
/// then the trees of its parts in the order they are written, looking into
/// paths (the type anchor, then each segment's type arguments and bindings).
pub open spec fn preorder(t: TypeRef) -> Seq<TypeRef>
    decreases t,
{
    seq![t] + match t {
        TypeRef::Tuple(ts) => preorder_all(ts@),
        TypeRef::Fn(ts) => preorder_all(ts@),
        TypeRef::RawPtr(inner, _) => preorder(*inner),
        TypeRef::Reference(inner, _) => preorder(*inner),
        TypeRef::Array(inner) => preorder(*inner),
        TypeRef::Slice(inner) => preorder(*inner),
        TypeRef::ImplTrait(bs) => preorder_bounds(bs@),
        TypeRef::DynTrait(bs) => preorder_bounds(bs@),
        TypeRef::Path(p) => preorder_path(p),
        TypeRef::Never | TypeRef::Placeholder | TypeRef::Error => Seq::empty(),
    }
}

/// The pre-orders of a sequence of trees, one after another.
pub open spec fn preorder_all(s: Seq<TypeRef>) -> Seq<TypeRef>
    decreases s,
{
    if s.len() == 0 {
        Seq::empty()
    } else {
        preorder_all(s.subrange(0, s.len() - 1)) + preorder(s[s.len() - 1])
    }
}

pub open spec fn preorder_bounds(s: Seq<TypeBound>) -> Seq<TypeRef>
    decreases s,
{
    if s.len() == 0 {
        Seq::empty()
    } else {
        preorder_bounds(s.subrange(0, s.len() - 1)) + match s[s.len() - 1] {
            TypeBound::Path(p) => preorder_path(p),
            TypeBound::Error => Seq::empty(),
        }
    }
}

pub open spec fn preorder_path(p: Path) -> Seq<TypeRef>
    decreases p,
{
    anchor_preorder(p.type_anchor) + preorder_segments(p.segments@)
}

pub open spec fn anchor_preorder(anchor: Option<Box<TypeRef>>) -> Seq<TypeRef>
    decreases anchor,
{
    match anchor {
        Some(t) => preorder(*t),
        None => Seq::empty(),
    }
}

pub open spec fn preorder_segments(s: Seq<PathSegment>) -> Seq<TypeRef>
    decreases s,
{
    if s.len() == 0 {
        Seq::empty()
    } else {
        preorder_segments(s.subrange(0, s.len() - 1)) + match s[s.len() - 1].args_and_bindings {
            Some(g) => preorder_all(g.args@) + preorder_bindings(g.bindings@),
            None => Seq::empty(),
        }
    }
}

pub open spec fn preorder_bindings(s: Seq<(String, TypeRef)>) -> Seq<TypeRef>
    decreases s,
{
    if s.len() == 0 {
        Seq::empty()
    } else {
        preorder_bindings(s.subrange(0, s.len() - 1)) + preorder(s[s.len() - 1].1)
    }
}

/// The values that a sequence of references points to.
pub open spec fn deref_all(s: Seq<&TypeRef>) -> Seq<TypeRef> {
    s.map_values(|r: &TypeRef| *r)
}

proof fn lemma_deref_push(s: Seq<&TypeRef>, r: &TypeRef)
    ensures
        deref_all(s.push(r)) == deref_all(s).push(*r),
{
    assert(deref_all(s.push(r)) =~= deref_all(s).push(*r));
}

impl TypeRef {
    /// Every type reference in this tree, each once, in pre-order (see
    /// `preorder`). The tree is only read.
    pub fn walk(&self) -> (r: Vec<&TypeRef>)
        ensures
            deref_all(r@) == preorder(*self),
    {
        let mut out: Vec<&TypeRef> = Vec::new();
        walk_into(self, &mut out);
        assert(deref_all(out@) =~= Seq::<TypeRef>::empty() + preorder(*self));
        out
    }
}

fn walk_into<'a>(t: &'a TypeRef, out: &mut Vec<&'a TypeRef>)
    ensures
        deref_all(final(out)@) == deref_all(old(out)@) + preorder(*t),
    decreases t,
{
    let ghost start = deref_all(out@);
    proof {
        lemma_deref_push(out@, t);
    }
    out.push(t);
    match t {
        TypeRef::Tuple(ts) => walk_all(ts, out),
        TypeRef::Fn(ts) => walk_all(ts, out),
        TypeRef::RawPtr(inner, _) => walk_into(&**inner, out),
        TypeRef::Reference(inner, _) => walk_into(&**inner, out),
        TypeRef::Array(inner) => walk_into(&**inner, out),
        TypeRef::Slice(inner) => walk_into(&**inner, out),
        TypeRef::ImplTrait(bs) => walk_bounds(bs, out),
        TypeRef::DynTrait(bs) => walk_bounds(bs, out),
        TypeRef::Path(p) => walk_path(p, out),
        TypeRef::Never | TypeRef::Placeholder | TypeRef::Error => {},
    }
    assert(deref_all(out@) =~= start + preorder(*t));
}

fn walk_all<'a>(ts: &'a Vec<TypeRef>, out: &mut Vec<&'a TypeRef>)
    ensures
        deref_all(final(out)@) == deref_all(old(out)@) + preorder_all(ts@),
    decreases ts,
{
    let ghost start = deref_all(out@);
    let mut i: usize = 0;
    while i < ts.len()
        invariant
            i <= ts@.len(),
            deref_all(out@) == start + preorder_all(ts@.subrange(0, i as int)),
        decreases ts@.len() - i,
    {
        proof {
            assert(ts@.subrange(0, i + 1).subrange(0, i as int) =~= ts@.subrange(0, i as int));
        }
        walk_into(&ts[i], out);
        i = i + 1;
        assert(deref_all(out@) =~= start + preorder_all(ts@.subrange(0, i as int)));
    }
    assert(ts@.subrange(0, ts@.len() as int) =~= ts@);
}

fn walk_bounds<'a>(bs: &'a Vec<TypeBound>, out: &mut Vec<&'a TypeRef>)
    ensures
        deref_all(final(out)@) == deref_all(old(out)@) + preorder_bounds(bs@),
    decreases bs,
{
    let ghost start = deref_all(out@);
    let mut i: usize = 0;
    while i < bs.len()
        invariant
            i <= bs@.len(),
            deref_all(out@) == start + preorder_bounds(bs@.subrange(0, i as int)),
        decreases bs@.len() - i,
    {
        proof {
            assert(bs@.subrange(0, i + 1).subrange(0, i as int) =~= bs@.subrange(0, i as int));
        }
        match &bs[i] {
            TypeBound::Path(p) => walk_path(p, out),
            TypeBound::Error => {},
        }
        i = i + 1;
        assert(deref_all(out@) =~= start + preorder_bounds(bs@.subrange(0, i as int)));
    }
    assert(bs@.subrange(0, bs@.len() as int) =~= bs@);
}

fn walk_path<'a>(p: &'a Path, out: &mut Vec<&'a TypeRef>)
    ensures
        deref_all(final(out)@) == deref_all(old(out)@) + preorder_path(*p),
    decreases p,
{
    let ghost start = deref_all(out@);
    match &p.type_anchor {
        Some(anchor) => walk_into(&**anchor, out),
        None => {},
    }
    let ghost after_anchor = deref_all(out@);
    let segments = &p.segments;
    let mut i: usize = 0;
    while i < segments.len()
        invariant
            segments == &p.segments,
            i <= segments@.len(),
            deref_all(out@) == after_anchor + preorder_segments(segments@.subrange(0, i as int)),
        decreases segments@.len() - i,
    {
        proof {
            assert(segments@.subrange(0, i + 1).subrange(0, i as int) =~= segments@.subrange(0, i as int));
        }
        match &segments[i].args_and_bindings {
            Some(g) => {
                walk_all(&g.args, out);
                walk_bindings(&g.bindings, out);
            },
            None => {},
        }
        i = i + 1;
        assert(deref_all(out@) =~= after_anchor + preorder_segments(segments@.subrange(0, i as int)));
    }
    assert(segments@.subrange(0, segments@.len() as int) =~= segments@);
    assert(deref_all(out@) =~= start + preorder_path(*p));
}

fn walk_bindings<'a>(bs: &'a Vec<(String, TypeRef)>, out: &mut Vec<&'a TypeRef>)
    ensures
        deref_all(final(out)@) == deref_all(old(out)@) + preorder_bindings(bs@),
    decreases bs,
{
    let ghost start = deref_all(out@);
    let mut i: usize = 0;
    while i < bs.len()
        invariant
            i <= bs@.len(),
            deref_all(out@) == start + preorder_bindings(bs@.subrange(0, i as int)),
        decreases bs@.len() - i,
    {
        proof {
            assert(bs@.subrange(0, i + 1).subrange(0, i as int) =~= bs@.subrange(0, i as int));
        }
        walk_into(&bs[i].1, out);
        i = i + 1;
        assert(deref_all(out@) =~= start + preorder_bindings(bs@.subrange(0, i as int)));
    }
    assert(bs@.subrange(0, bs@.len() as int) =~= bs@);
}

} // verus!
