use vstd::prelude::*;

use crate::scalar::Scalar;

verus! {

/// A two-component vector, generic over the component type.
#[derive(Clone, Copy, PartialEq, Debug)]
#[allow(non_camel_case_types)]
pub struct gvec2<T> {
    pub x: T,
    pub y: T,
}

impl<T: Copy> gvec2<T> {
    pub fn new(x: T, y: T) -> (r: Self)
        ensures
            r == (gvec2 { x, y }),
    {
        Self { x, y }
    }
}

impl<S: Scalar> gvec2<S> {
    /// The vector whose components are the additive identity.
    pub open spec fn zero_spec() -> Self {
        gvec2 { x: S::zero_spec(), y: S::zero_spec() }
    }

    /// What `add` returns: componentwise scalar addition.
    pub open spec fn add_spec(self, o: Self) -> Self {
        gvec2 { x: self.x.add_spec(o.x), y: self.y.add_spec(o.y) }
    }

    /// What `sub` returns: componentwise scalar subtraction.
    pub open spec fn sub_spec(self, o: Self) -> Self {
        gvec2 { x: self.x.sub_spec(o.x), y: self.y.sub_spec(o.y) }
    }

    /// What `scale` returns: each component multiplied by `s`.
    pub open spec fn scale_spec(self, s: S) -> Self {
        gvec2 { x: self.x.mul_spec(s), y: self.y.mul_spec(s) }
    }

    /// What `div_s` returns: each component divided by `s`.
    pub open spec fn div_s_spec(self, s: S) -> Self {
        gvec2 { x: self.x.div_spec(s), y: self.y.div_spec(s) }
    }

    /// What `dot` returns: `x*x' + y*y'`, multiplications first, then
    /// one addition.
    pub open spec fn dot_spec(self, o: Self) -> S {
        self.x.mul_spec(o.x).add_spec(self.y.mul_spec(o.y))
    }

    /// What `len2` returns: the dot product of the vector with itself.
    pub open spec fn len2_spec(self) -> S {
        self.dot_spec(self)
    }

    pub fn zero() -> (r: Self)
        ensures
            r == Self::zero_spec(),
    {
        gvec2 { x: S::zero(), y: S::zero() }
    }

    pub fn add(self, o: Self) -> (r: Self)
        ensures
            r == self.add_spec(o),
    {
        gvec2 { x: self.x.add(o.x), y: self.y.add(o.y) }
    }

    pub fn sub(self, o: Self) -> (r: Self)
        ensures
            r == self.sub_spec(o),
    {
        gvec2 { x: self.x.sub(o.x), y: self.y.sub(o.y) }
    }

    pub fn scale(self, s: S) -> (r: Self)
        ensures
            r == self.scale_spec(s),
    {
        gvec2 { x: self.x.mul(s), y: self.y.mul(s) }
    }

    pub fn div_s(self, s: S) -> (r: Self)
        ensures
            r == self.div_s_spec(s),
    {
        gvec2 { x: self.x.div(s), y: self.y.div(s) }
    }

    /// Dot (inner) product.
    pub fn dot(self, o: Self) -> (r: S)
        ensures
            r == self.dot_spec(o),
    {
        self.x.mul(o.x).add(self.y.mul(o.y))
    }

    /// Length squared (norm squared).
    pub fn len2(self) -> (r: S)
        ensures
            r == self.len2_spec(),
    {
        self.dot(self)
    }
}

} // verus!
