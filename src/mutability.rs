use vstd::prelude::*;

verus! {

/// Whether the referent of a reference or raw pointer may be mutated.
#[derive(Copy, Clone, PartialEq, Eq, Structural, Hash, Debug)]
pub enum Mutability {
    Shared,
    Mutable,
}

impl Mutability {
    /// `Mutable` exactly when a `mut` keyword was written.
    pub fn from_mutable(mutable: bool) -> (r: Mutability)
        ensures
            r == (if mutable { Mutability::Mutable } else { Mutability::Shared }),
    {
        if mutable {
            Mutability::Mutable
        } else {
            Mutability::Shared
        }
    }

    /// The keyword that follows `&` in a reference type.
    pub fn as_keyword_for_ref(self) -> (r: &'static str)
        ensures
            r@ == (if self is Mutable { "mut "@ } else { ""@ }),
    {
        match self {
            Mutability::Shared => "",
            Mutability::Mutable => "mut ",
        }
    }

    /// The keyword that follows `*` in a raw pointer type.
    pub fn as_keyword_for_ptr(self) -> (r: &'static str)
        ensures
            r@ == (if self is Mutable { "mut "@ } else { "const "@ }),
    {
        match self {
            Mutability::Shared => "const ",
            Mutability::Mutable => "mut ",
        }
    }
}

} // verus!
