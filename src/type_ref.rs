use vstd::prelude::*;

use crate::mutability::Mutability;
use crate::path::Path;

verus! {

/// An unresolved type reference: the shape of a type expression, with names
/// kept as paths for a later pass to resolve.
#[derive(PartialEq, Eq, Hash, Debug)]
pub enum TypeRef {
    Never,
    Placeholder,
    Tuple(Vec<TypeRef>),
    Path(Path),
    RawPtr(Box<TypeRef>, Mutability),
    Reference(Box<TypeRef>, Mutability),
    /// The element type; the length expression is not kept.
    Array(Box<TypeRef>),
    Slice(Box<TypeRef>),
    /// A fn pointer: the parameter types in order, then the return type last.
    Fn(Vec<TypeRef>),
    ImplTrait(Vec<TypeBound>),
    DynTrait(Vec<TypeBound>),
    Error,
}

/// A bound of an `impl` or `dyn` type. Lifetime and higher-ranked bounds are
/// not modelled and stand as `Error`.
#[derive(PartialEq, Eq, Hash, Debug)]
pub enum TypeBound {
    Path(Path),
    Error,
}

/// The mathematical shape of a `TypeRef`: the same tree with sequences in
/// place of vectors. Paths are carried as they are.
pub enum TypeShape {
    Never,
    Placeholder,
    Tuple(Seq<TypeShape>),
    Path(Path),
    RawPtr(Box<TypeShape>, Mutability),
    Reference(Box<TypeShape>, Mutability),
    Array(Box<TypeShape>),
    Slice(Box<TypeShape>),
    Fn(Seq<TypeShape>),
    ImplTrait(Seq<TypeBound>),
    DynTrait(Seq<TypeBound>),
    Error,
}

/// The shapes of a sequence of type references, in order.
pub open spec fn shapes(ts: Seq<TypeRef>) -> Seq<TypeShape>
    decreases ts,
{
    if ts.len() == 0 {
        Seq::empty()
    } else {
        shapes(ts.subrange(0, ts.len() - 1)).push(ts[ts.len() - 1].shape())
    }
}

impl TypeRef {
    pub open spec fn shape(self) -> TypeShape
        decreases self,
    {
        match self {
            TypeRef::Never => TypeShape::Never,
            TypeRef::Placeholder => TypeShape::Placeholder,
            TypeRef::Tuple(ts) => TypeShape::Tuple(shapes(ts@)),
            TypeRef::Path(p) => TypeShape::Path(p),
            TypeRef::RawPtr(t, m) => TypeShape::RawPtr(Box::new(t.shape()), m),
            TypeRef::Reference(t, m) => TypeShape::Reference(Box::new(t.shape()), m),
            TypeRef::Array(t) => TypeShape::Array(Box::new(t.shape())),
            TypeRef::Slice(t) => TypeShape::Slice(Box::new(t.shape())),
            TypeRef::Fn(ts) => TypeShape::Fn(shapes(ts@)),
            TypeRef::ImplTrait(bs) => TypeShape::ImplTrait(bs@),
            TypeRef::DynTrait(bs) => TypeShape::DynTrait(bs@),
            TypeRef::Error => TypeShape::Error,
        }
    }

    /// The unit type, an empty tuple.
    pub fn unit() -> (r: TypeRef)
        ensures
            r.shape() == TypeShape::Tuple(Seq::empty()),
    {
        let fields: Vec<TypeRef> = Vec::new();
        assert(shapes(fields@) == Seq::<TypeShape>::empty());
        TypeRef::Tuple(fields)
    }
}

impl TypeBound {
    /// The trait path of a path bound; `None` for an `Error` bound.
    pub fn as_path(&self) -> (r: Option<&Path>)
        ensures
            match *self {
                TypeBound::Path(p) => r == Some(&p),
                TypeBound::Error => r is None,
            },
    {
        match self {
            TypeBound::Path(p) => Some(p),
            TypeBound::Error => None,
        }
    }
}

} // verus!
