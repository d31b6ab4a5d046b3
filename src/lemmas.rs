use vstd::prelude::*;

use crate::lower::{
    lower, lower_all, lower_bound, lower_bounds, lower_opt, lower_opt_all, lower_ret,
};
use crate::path::{Path, PathSegment};
use crate::syntax::{BoundSyntax, TypeSyntax};
use crate::type_ref::{TypeBound, TypeRef, TypeShape};
use crate::walk::{
    anchor_preorder, preorder, preorder_all, preorder_bindings, preorder_bounds, preorder_path,
    preorder_segments,
};

verus! {

/// The type references directly below `t`, in the order written; through a
/// path these are its type anchor, then each segment's type arguments and the
/// types bound to its associated types.
pub open spec fn children(t: TypeRef) -> Seq<TypeRef> {
    match t {
        TypeRef::Tuple(ts) => ts@,
        TypeRef::Fn(ts) => ts@,
        TypeRef::RawPtr(inner, _) => seq![*inner],
        TypeRef::Reference(inner, _) => seq![*inner],
        TypeRef::Array(inner) => seq![*inner],
        TypeRef::Slice(inner) => seq![*inner],
        TypeRef::ImplTrait(bs) => bound_types(bs@),
        TypeRef::DynTrait(bs) => bound_types(bs@),
        TypeRef::Path(p) => path_types(p),
        TypeRef::Never | TypeRef::Placeholder | TypeRef::Error => Seq::empty(),
    }
}

pub open spec fn bound_types(s: Seq<TypeBound>) -> Seq<TypeRef>
    decreases s.len(),
{
    if s.len() == 0 {
        Seq::empty()
    } else {
        bound_types(s.drop_last()) + match s.last() {
            TypeBound::Path(p) => path_types(p),
            TypeBound::Error => Seq::empty(),
        }
    }
}

pub open spec fn path_types(p: Path) -> Seq<TypeRef> {
    (match p.type_anchor {
        Some(anchor) => seq![*anchor],
        None => Seq::empty(),
    }) + segment_types(p.segments@)
}

pub open spec fn segment_types(s: Seq<PathSegment>) -> Seq<TypeRef>
    decreases s.len(),
{
    if s.len() == 0 {
        Seq::empty()
    } else {
        segment_types(s.drop_last()) + match s.last().args_and_bindings {
            Some(g) => g.args@ + binding_types(g.bindings@),
            None => Seq::empty(),
        }
    }
}

pub open spec fn binding_types(s: Seq<(String, TypeRef)>) -> Seq<TypeRef> {
    s.map_values(|b: (String, TypeRef)| b.1)
}

proof fn lemma_preorder_all_append(a: Seq<TypeRef>, b: Seq<TypeRef>)
    ensures
        preorder_all(a + b) == preorder_all(a) + preorder_all(b),
    decreases b.len(),
{
    if b.len() == 0 {
        assert(a + b =~= a);
        assert(preorder_all(a) + preorder_all(b) =~= preorder_all(a));
    } else {
        let b0 = b.subrange(0, b.len() - 1);
        lemma_preorder_all_append(a, b0);
        assert((a + b).subrange(0, (a + b).len() - 1) =~= a + b0);
        assert((a + b)[(a + b).len() - 1] == b[b.len() - 1]);
        assert(preorder_all(a + b) =~= preorder_all(a) + preorder_all(b));
    }
}

proof fn lemma_preorder_all_one(t: TypeRef)
    ensures
        preorder_all(seq![t]) == preorder(t),
{
    let e = Seq::<TypeRef>::empty();
    assert(seq![t].subrange(0, 0) =~= e);
    assert(preorder_all(e) == e);
    assert(seq![t][0] == t);
    assert(preorder_all(seq![t]) == preorder_all(e) + preorder(t));
    assert(preorder_all(seq![t]) =~= preorder(t));
}

proof fn lemma_bindings(s: Seq<(String, TypeRef)>)
    ensures
        preorder_bindings(s) == preorder_all(binding_types(s)),
    decreases s.len(),
{
    if s.len() > 0 {
        let s0 = s.subrange(0, s.len() - 1);
        lemma_bindings(s0);
        assert(binding_types(s) =~= binding_types(s0) + seq![s[s.len() - 1].1]);
        lemma_preorder_all_append(binding_types(s0), seq![s[s.len() - 1].1]);
        lemma_preorder_all_one(s[s.len() - 1].1);
    } else {
        assert(binding_types(s) =~= Seq::<TypeRef>::empty());
    }
}

proof fn lemma_segments(s: Seq<PathSegment>)
    ensures
        preorder_segments(s) == preorder_all(segment_types(s)),
    decreases s.len(),
{
    if s.len() > 0 {
        let s0 = s.subrange(0, s.len() - 1);
        lemma_segments(s0);
        assert(s.drop_last() == s0);
        match s[s.len() - 1].args_and_bindings {
            Some(g) => {
                lemma_bindings(g.bindings@);
                lemma_preorder_all_append(g.args@, binding_types(g.bindings@));
                lemma_preorder_all_append(segment_types(s0), g.args@ + binding_types(g.bindings@));
                assert(preorder_segments(s) =~= preorder_all(segment_types(s)));
            },
            None => {
                lemma_preorder_all_append(segment_types(s0), Seq::empty());
                assert(segment_types(s0) + Seq::<TypeRef>::empty() =~= segment_types(s0));
                assert(preorder_segments(s) =~= preorder_all(segment_types(s)));
            },
        }
    }
}

proof fn lemma_path(p: Path)
    ensures
        preorder_path(p) == preorder_all(path_types(p)),
{
    let anchor: Seq<TypeRef> = match p.type_anchor {
        Some(a) => seq![*a],
        None => Seq::empty(),
    };
    lemma_segments(p.segments@);
    lemma_preorder_all_append(anchor, segment_types(p.segments@));
    match p.type_anchor {
        Some(a) => lemma_preorder_all_one(*a),
        None => {},
    }
    assert(anchor_preorder(p.type_anchor) == preorder_all(anchor));
}

proof fn lemma_bounds(s: Seq<TypeBound>)
    ensures
        preorder_bounds(s) == preorder_all(bound_types(s)),
    decreases s.len(),
{
    if s.len() > 0 {
        let s0 = s.subrange(0, s.len() - 1);
        lemma_bounds(s0);
        assert(s.drop_last() == s0);
        match s[s.len() - 1] {
            TypeBound::Path(p) => {
                lemma_path(p);
                lemma_preorder_all_append(bound_types(s0), path_types(p));
            },
            TypeBound::Error => {
                lemma_preorder_all_append(bound_types(s0), Seq::empty());
                assert(bound_types(s0) + Seq::<TypeRef>::empty() =~= bound_types(s0));
            },
        }
        assert(preorder_bounds(s) =~= preorder_all(bound_types(s)));
    }
}

/// A walk visits the root first, then walks each type directly below it
/// (`children`) in the order written, so that every type in the tree is
/// visited exactly once, after the type it stands under.
pub proof fn lemma_walk_root_then_children(t: TypeRef)
    ensures
        preorder(t) == seq![t] + preorder_all(children(t)),
        preorder(t)[0] == t,
{
    match t {
        TypeRef::RawPtr(inner, _) => lemma_preorder_all_one(*inner),
        TypeRef::Reference(inner, _) => lemma_preorder_all_one(*inner),
        TypeRef::Array(inner) => lemma_preorder_all_one(*inner),
        TypeRef::Slice(inner) => lemma_preorder_all_one(*inner),
        TypeRef::ImplTrait(bs) => lemma_bounds(bs@),
        TypeRef::DynTrait(bs) => lemma_bounds(bs@),
        TypeRef::Path(p) => lemma_path(p),
        _ => {},
    }
}

/// The pre-order of a sequence of trees holds each tree's pre-order in turn:
/// the tree at position `i` starts right after the trees before it.
pub proof fn lemma_walk_sequence_order(s: Seq<TypeRef>, i: int)
    requires
        0 <= i < s.len(),
    ensures
        preorder_all(s) == preorder_all(s.subrange(0, i)) + preorder(s[i]) + preorder_all(
            s.subrange(i + 1, s.len() as int),
        ),
{
    lemma_preorder_all_append(s.subrange(0, i), seq![s[i]]);
    lemma_preorder_all_one(s[i]);
    lemma_preorder_all_append(s.subrange(0, i) + seq![s[i]], s.subrange(i + 1, s.len() as int));
    assert(s.subrange(0, i) + seq![s[i]] + s.subrange(i + 1, s.len() as int) =~= s);
}

proof fn lemma_lower_all(s: Seq<TypeSyntax>)
    ensures
        lower_all(s).len() == s.len(),
        forall|i: int| 0 <= i < s.len() ==> #[trigger] lower_all(s)[i] == lower(s[i]),
    decreases s.len(),
{
    if s.len() > 0 {
        lemma_lower_all(s.subrange(0, s.len() - 1));
    }
}

proof fn lemma_lower_opt_all(s: Seq<Option<Box<TypeSyntax>>>)
    ensures
        lower_opt_all(s).len() == s.len(),
        forall|i: int| 0 <= i < s.len() ==> #[trigger] lower_opt_all(s)[i] == lower_opt(s[i]),
    decreases s.len(),
{
    if s.len() > 0 {
        lemma_lower_opt_all(s.subrange(0, s.len() - 1));
    }
}

/// A fn pointer type with `k` parameters lowers to `Fn` of `k + 1` types:
/// the parameters' types in order, a missing ascription as `Error`, then the
/// return type, which is the unit type where none is declared.
pub proof fn lemma_fn_pointer_arity(
    param_list: Option<Vec<Option<Box<TypeSyntax>>>>,
    ret_type: Option<Box<TypeSyntax>>,
)
    ensures
        ({
            let k: int = match param_list {
                Some(ps) => ps@.len() as int,
                None => 0,
            };
            let r = lower(TypeSyntax::FnPointerType { param_list, ret_type });
            &&& r matches TypeShape::Fn(tys)
            &&& tys.len() == k + 1
            &&& tys[k] == lower_ret(ret_type)
            &&& ret_type is None ==> tys[k] == TypeShape::Tuple(Seq::empty())
            &&& forall|i: int|
                0 <= i < k ==> tys[i] == lower_opt(#[trigger] param_list->0@[i])
        }),
{
    match param_list {
        Some(ps) => lemma_lower_opt_all(ps@),
        None => {},
    }
}

/// A tuple type lowers to a tuple of its fields' lowerings, in order and
/// with the same number of fields.
pub proof fn lemma_tuple_order(fields: Vec<TypeSyntax>)
    ensures
        ({
            let r = lower(TypeSyntax::TupleType(fields));
            &&& r matches TypeShape::Tuple(tys)
            &&& tys.len() == fields@.len()
            &&& forall|i: int| 0 <= i < fields@.len() ==> tys[i] == lower(#[trigger] fields@[i])
        }),
{
    lemma_lower_all(fields@);
}

/// The bounds of an `impl` or `dyn` type keep the order and number in which
/// they were written.
pub proof fn lemma_bounds_order(bounds: Vec<BoundSyntax>)
    ensures
        lower_bounds(Some(bounds)).len() == bounds@.len(),
        forall|i: int|
            0 <= i < bounds@.len() ==> lower_bounds(Some(bounds))[i] == lower_bound(
                #[trigger] bounds@[i],
            ),
        lower(TypeSyntax::ImplTraitType(Some(bounds))) == TypeShape::ImplTrait(
            lower_bounds(Some(bounds)),
        ),
        lower(TypeSyntax::DynTraitType(Some(bounds))) == TypeShape::DynTrait(
            lower_bounds(Some(bounds)),
        ),
{
}

/// An explicit empty tuple lowers to the unit type, the shape that
/// `TypeRef::unit` returns.
pub proof fn lemma_unit_is_empty_tuple(fields: Vec<TypeSyntax>)
    requires
        fields@.len() == 0,
    ensures
        lower(TypeSyntax::TupleType(fields)) == TypeShape::Tuple(Seq::empty()),
{
    assert(lower_all(fields@) =~= Seq::<TypeShape>::empty());
}

/// Parentheses do not change what a type lowers to.
pub proof fn lemma_parens_transparent(inner: TypeSyntax)
    ensures
        lower(TypeSyntax::ParenType(Some(Box::new(inner)))) == lower(inner),
{
}

} // verus!
