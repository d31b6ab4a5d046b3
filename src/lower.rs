use vstd::prelude::*;

use crate::mutability::Mutability;
use crate::syntax::{BoundSyntax, TypeSyntax};
use crate::type_ref::{shapes, TypeBound, TypeRef, TypeShape};

verus! {

/// The shape that a type expression lowers to.
pub open spec fn lower(n: TypeSyntax) -> TypeShape
    decreases n,
{
    match n {
        TypeSyntax::ParenType(inner) => lower_opt(inner),
        TypeSyntax::TupleType(fields) => TypeShape::Tuple(lower_all(fields@)),
        TypeSyntax::NeverType => TypeShape::Never,
        TypeSyntax::PathType(path) => match path {
            Some(p) => TypeShape::Path(p),
            None => TypeShape::Error,
        },
        TypeSyntax::PointerType { type_ref, mut_token } => TypeShape::RawPtr(
            Box::new(lower_opt(type_ref)),
            mutability_of(mut_token),
        ),
        TypeSyntax::ArrayType(inner) => TypeShape::Array(Box::new(lower_opt(inner))),
        TypeSyntax::SliceType(inner) => TypeShape::Slice(Box::new(lower_opt(inner))),
        TypeSyntax::ReferenceType { type_ref, mut_token } => TypeShape::Reference(
            Box::new(lower_opt(type_ref)),
            mutability_of(mut_token),
        ),
        TypeSyntax::PlaceholderType => TypeShape::Placeholder,
        TypeSyntax::FnPointerType { param_list, ret_type } => TypeShape::Fn(
            lower_params(param_list).push(lower_ret(ret_type)),
        ),
        TypeSyntax::ForType(inner) => lower_opt(inner),
        TypeSyntax::ImplTraitType(bounds) => TypeShape::ImplTrait(lower_bounds(bounds)),
        TypeSyntax::DynTraitType(bounds) => TypeShape::DynTrait(lower_bounds(bounds)),
    }
}

/// A missing type expression lowers to `Error`.
pub open spec fn lower_opt(n: Option<Box<TypeSyntax>>) -> TypeShape
    decreases n,
{
    match n {
        Some(t) => lower(*t),
        None => TypeShape::Error,
    }
}

pub open spec fn lower_all(s: Seq<TypeSyntax>) -> Seq<TypeShape>
    decreases s,
{
    if s.len() == 0 {
        Seq::empty()
    } else {
        lower_all(s.subrange(0, s.len() - 1)).push(lower(s[s.len() - 1]))
    }
}

pub open spec fn lower_opt_all(s: Seq<Option<Box<TypeSyntax>>>) -> Seq<TypeShape>
    decreases s,
{
    if s.len() == 0 {
        Seq::empty()
    } else {
        lower_opt_all(s.subrange(0, s.len() - 1)).push(lower_opt(s[s.len() - 1]))
    }
}

/// The parameter types of a fn pointer, one for each parameter written.
pub open spec fn lower_params(param_list: Option<Vec<Option<Box<TypeSyntax>>>>) -> Seq<TypeShape>
    decreases param_list,
{
    match param_list {
        Some(params) => lower_opt_all(params@),
        None => Seq::empty(),
    }
}

/// The return type of a fn pointer: the unit type where none is declared.
pub open spec fn lower_ret(ret_type: Option<Box<TypeSyntax>>) -> TypeShape
    decreases ret_type,
{
    match ret_type {
        Some(t) => lower(*t),
        None => TypeShape::Tuple(Seq::empty()),
    }
}

pub open spec fn mutability_of(mut_token: bool) -> Mutability {
    if mut_token {
        Mutability::Mutable
    } else {
        Mutability::Shared
    }
}

pub open spec fn lower_bound(b: BoundSyntax) -> TypeBound {
    match b {
        BoundSyntax::PathType(Some(p)) => TypeBound::Path(p),
        _ => TypeBound::Error,
    }
}

/// One bound for each bound written, in order; none without a bound list.
pub open spec fn lower_bounds(bounds: Option<Vec<BoundSyntax>>) -> Seq<TypeBound> {
    match bounds {
        Some(bs) => bs@.map_values(|b: BoundSyntax| lower_bound(b)),
        None => Seq::empty(),
    }
}

proof fn lemma_shapes_push(s: Seq<TypeRef>, t: TypeRef)
    ensures
        shapes(s.push(t)) == shapes(s).push(t.shape()),
{
    assert(s.push(t).subrange(0, s.len() as int) =~= s);
}

impl TypeRef {
    /// Lowers a type expression. Never fails: what cannot be lowered becomes
    /// `Error` in place.
    pub fn from_ast(node: TypeSyntax) -> (r: TypeRef)
        ensures
            r.shape() == lower(node),
        decreases node,
    {
        match node {
            TypeSyntax::ParenType(inner) => TypeRef::from_ast_opt(inner),
            TypeSyntax::TupleType(fields) => TypeRef::Tuple(from_ast_all(fields)),
            TypeSyntax::NeverType => TypeRef::Never,
            TypeSyntax::PathType(path) => match path {
                Some(p) => TypeRef::Path(p),
                None => TypeRef::Error,
            },
            TypeSyntax::PointerType { type_ref, mut_token } => {
                let inner_ty = TypeRef::from_ast_opt(type_ref);
                let mutability = Mutability::from_mutable(mut_token);
                TypeRef::RawPtr(Box::new(inner_ty), mutability)
            },
            TypeSyntax::ArrayType(inner) => TypeRef::Array(Box::new(TypeRef::from_ast_opt(inner))),
            TypeSyntax::SliceType(inner) => TypeRef::Slice(Box::new(TypeRef::from_ast_opt(inner))),
            TypeSyntax::ReferenceType { type_ref, mut_token } => {
                let inner_ty = TypeRef::from_ast_opt(type_ref);
                let mutability = Mutability::from_mutable(mut_token);
                TypeRef::Reference(Box::new(inner_ty), mutability)
            },
            TypeSyntax::PlaceholderType => TypeRef::Placeholder,
            TypeSyntax::FnPointerType { param_list, ret_type } => {
                let ret_ty = match ret_type {
                    Some(t) => TypeRef::from_ast(*t),
                    None => TypeRef::unit(),
                };
                let mut params = match param_list {
                    Some(pl) => from_ast_opt_all(pl),
                    None => Vec::new(),
                };
                proof {
                    lemma_shapes_push(params@, ret_ty);
                }
                params.push(ret_ty);
                TypeRef::Fn(params)
            },
            // a higher-ranked type stands for its inner type here
            TypeSyntax::ForType(inner) => TypeRef::from_ast_opt(inner),
            TypeSyntax::ImplTraitType(bounds) => TypeRef::ImplTrait(type_bounds_from_ast(bounds)),
            TypeSyntax::DynTraitType(bounds) => TypeRef::DynTrait(type_bounds_from_ast(bounds)),
        }
    }

    /// Lowers an optional type expression; a missing one is `Error`.
    pub fn from_ast_opt(node: Option<Box<TypeSyntax>>) -> (r: TypeRef)
        ensures
            r.shape() == lower_opt(node),
        decreases node,
    {
        match node {
            Some(t) => TypeRef::from_ast(*t),
            None => TypeRef::Error,
        }
    }
}

fn from_ast_all(fields: Vec<TypeSyntax>) -> (r: Vec<TypeRef>)
    ensures
        shapes(r@) == lower_all(fields@),
    decreases fields,
{
    let ghost all = fields@;
    let mut out: Vec<TypeRef> = Vec::new();
    for f in it: fields.into_iter()
        invariant
            it.seq() == all,
            shapes(out@) == lower_all(all.subrange(0, it.index())),
    {
        let t = TypeRef::from_ast(f);
        proof {
            lemma_shapes_push(out@, t);
            assert(all.subrange(0, it.index() + 1).subrange(0, it.index()) =~= all.subrange(0, it.index()));
        }
        out.push(t);
    }
    assert(all.subrange(0, all.len() as int) =~= all);
    out
}

fn from_ast_opt_all(params: Vec<Option<Box<TypeSyntax>>>) -> (r: Vec<TypeRef>)
    ensures
        shapes(r@) == lower_opt_all(params@),
    decreases params,
{
    let ghost all = params@;
    let mut out: Vec<TypeRef> = Vec::new();
    for p in it: params.into_iter()
        invariant
            it.seq() == all,
            shapes(out@) == lower_opt_all(all.subrange(0, it.index())),
    {
        let t = TypeRef::from_ast_opt(p);
        proof {
            lemma_shapes_push(out@, t);
            assert(all.subrange(0, it.index() + 1).subrange(0, it.index()) =~= all.subrange(0, it.index()));
        }
        out.push(t);
    }
    assert(all.subrange(0, all.len() as int) =~= all);
    out
}

/// Lowers a bound list: one bound for each bound written, in order, and none
/// where no list is written.
pub fn type_bounds_from_ast(type_bounds_opt: Option<Vec<BoundSyntax>>) -> (r: Vec<TypeBound>)
    ensures
        r@ == lower_bounds(type_bounds_opt),
{
    match type_bounds_opt {
        Some(type_bounds) => {
            let ghost all = type_bounds@;
            let mut out: Vec<TypeBound> = Vec::new();
            for b in it: type_bounds.into_iter()
                invariant
                    it.seq() == all,
                    out@ == all.subrange(0, it.index()).map_values(|b: BoundSyntax| lower_bound(b)),
            {
                out.push(TypeBound::from_ast(b));
            }
            assert(out@ =~= all.map_values(|b: BoundSyntax| lower_bound(b)));
            out
        },
        None => Vec::new(),
    }
}

impl TypeBound {
    /// Lowers one bound. Lifetime and higher-ranked bounds, and trait paths
    /// that are missing or could not be lowered, are `Error`.
    pub fn from_ast(node: BoundSyntax) -> (r: TypeBound)
        ensures
            r == lower_bound(node),
    {
        match node {
            BoundSyntax::PathType(path) => match path {
                Some(p) => TypeBound::Path(p),
                None => TypeBound::Error,
            },
            BoundSyntax::ForType | BoundSyntax::Lifetime => TypeBound::Error,
        }
    }
}

} // verus!
