//! Unresolved type references: a finite vocabulary for the shape of every type
//! expression, the lowering of type syntax into it, and a traversal of the
//! resulting trees.

pub mod mutability;
pub mod path;
pub mod type_ref;
pub mod syntax;
pub mod lower;
pub mod walk;
pub mod lemmas;

pub use mutability::Mutability;
pub use path::{GenericArgs, Path, PathSegment};
pub use type_ref::{TypeBound, TypeRef, TypeShape};
pub use syntax::{BoundSyntax, TypeSyntax};
pub use lower::type_bounds_from_ast;
