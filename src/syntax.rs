use vstd::prelude::*;

use crate::path::Path;

verus! {

/// A type expression as the parser left it, reduced to what lowering reads:
/// the kind of node and its optional parts. A part that the parser could not
/// find is `None`.
#[derive(PartialEq, Eq, Hash, Debug)]
pub enum TypeSyntax {
    /// `(T)`
    ParenType(Option<Box<TypeSyntax>>),
    /// `(A, B, ...)`, fields in order; `()` has none.
    TupleType(Vec<TypeSyntax>),
    /// `!`
    NeverType,
    /// A named type, holding the path that path lowering made of it; `None`
    /// where the path is missing or could not be lowered.
    PathType(Option<Path>),
    /// `*const T` or `*mut T`
    PointerType { type_ref: Option<Box<TypeSyntax>>, mut_token: bool },
    /// `[T; N]`
    ArrayType(Option<Box<TypeSyntax>>),
    /// `[T]`
    SliceType(Option<Box<TypeSyntax>>),
    /// `&T` or `&mut T`
    ReferenceType { type_ref: Option<Box<TypeSyntax>>, mut_token: bool },
    /// `_`
    PlaceholderType,
    /// `fn(A, B) -> R`: the parameter list, if written, with each
    /// parameter's ascribed type, and the declared return type.
    FnPointerType {
        param_list: Option<Vec<Option<Box<TypeSyntax>>>>,
        ret_type: Option<Box<TypeSyntax>>,
    },
    /// `for<'a> T`
    ForType(Option<Box<TypeSyntax>>),
    /// `impl A + B`, with its bound list if written.
    ImplTraitType(Option<Vec<BoundSyntax>>),
    /// `dyn A + B`, with its bound list if written.
    DynTraitType(Option<Vec<BoundSyntax>>),
}

/// One bound in a bound list.
#[derive(PartialEq, Eq, Hash, Debug)]
pub enum BoundSyntax {
    /// A trait path, holding what path lowering made of it; `None` where the
    /// path is missing or could not be lowered.
    PathType(Option<Path>),
    /// `for<'a> Trait<'a>`
    ForType,
    /// `'a`
    Lifetime,
}

} // verus!
