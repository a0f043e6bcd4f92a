use vstd::prelude::*;

verus! {

/// A half-line given by an origin and a direction, over any vector type.
/// The direction need not have unit length.
pub struct Ray<V> {
    base: V,
    dir: V,
}

impl<V: Copy> Ray<V> {
    pub closed spec fn origin_spec(&self) -> V {
        self.base
    }

    pub closed spec fn direction_spec(&self) -> V {
        self.dir
    }

    pub fn new(a: V, b: V) -> (r: Ray<V>)
        ensures
            r.origin_spec() == a,
            r.direction_spec() == b,
    {
        Ray { base: a, dir: b }
    }

    pub fn origin(&self) -> (r: V)
        ensures
            r == self.origin_spec(),
    {
        self.base
    }

    pub fn direction(&self) -> (r: V)
        ensures
            r == self.direction_spec(),
    {
        self.dir
    }
}

} // verus!
