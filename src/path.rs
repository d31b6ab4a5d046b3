use vstd::prelude::*;

use crate::type_ref::TypeRef;

verus! {

/// A name path as handed over by path lowering: an optional qualifying type
/// (`T` in `<T as Trait>::Assoc`) and the segments in the order written.
/// Names are not resolved here.
#[derive(PartialEq, Eq, Hash, Debug)]
pub struct Path {
    pub type_anchor: Option<Box<TypeRef>>,
    pub segments: Vec<PathSegment>,
}

/// One segment of a path, with the generic arguments written on it, if any.
#[derive(PartialEq, Eq, Hash, Debug)]
pub struct PathSegment {
    pub name: String,
    pub args_and_bindings: Option<GenericArgs>,
}

/// The generic arguments of a segment: type arguments in order, then
/// associated-type bindings (`Item = T`) in order.
#[derive(PartialEq, Eq, Hash, Debug)]
pub struct GenericArgs {
    pub args: Vec<TypeRef>,
    pub bindings: Vec<(String, TypeRef)>,
}

impl Path {
    /// A path of one plain segment, such as `i32`.
    pub fn from_name(name: String) -> (r: Path)
        ensures
            r.type_anchor is None,
            r.segments@.len() == 1,
            r.segments@[0].name@ == name@,
            r.segments@[0].args_and_bindings is None,
    {
        let mut segments: Vec<PathSegment> = Vec::new();
        segments.push(PathSegment { name, args_and_bindings: None });
        Path { type_anchor: None, segments }
    }
}

} // verus!
