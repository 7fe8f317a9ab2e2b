use vstd::prelude::*;
use std::ops::{Add, Index, Mul, Sub};
use vstd::std_specs::ops::{AddSpec, MulSpec, SubSpec};

verus! {

/// A vector in three dimensions whose components share one scalar type.
#[derive(Clone, Copy, Debug, PartialEq)]
pub struct Vector3d<T> {
    /// The x component of the vector.
    pub x: T,
    /// The y component of the vector.
    pub y: T,
    /// The z component of the vector.
    pub z: T,
}

/// `v` is a value that the scalar type's `default` may return.
pub open spec fn default_scalar<T: Default>(v: T) -> bool {
    call_ensures(T::default, (), v)
}

/// Every component of `v` is a value that the scalar type's `default` may return.
pub open spec fn is_default_vector<T: Default>(v: Vector3d<T>) -> bool {
    &&& default_scalar(v.x)
    &&& default_scalar(v.y)
    &&& default_scalar(v.z)
}

impl<T> Vector3d<T> {
    /// The component on axis `i`: 0 is x, 1 is y, 2 is z.
    pub open spec fn spec_index(self, i: int) -> T {
        if i == 0 {
            self.x
        } else if i == 1 {
            self.y
        } else {
            self.z
        }
    }

    /// The vector with the component on axis `i` replaced by `v`.
    pub open spec fn with_component(self, i: int, v: T) -> Vector3d<T> {
        if i == 0 {
            Vector3d { x: v, ..self }
        } else if i == 1 {
            Vector3d { y: v, ..self }
        } else {
            Vector3d { z: v, ..self }
        }
    }

    /// Creates a vector from its three components.
    pub fn new(x: T, y: T, z: T) -> (r: Vector3d<T>)
        ensures
            r.x == x,
            r.y == y,
            r.z == z,
    {
        Vector3d { x, y, z }
    }

    /// The scalar products of `dot` are defined and their sum does not fail.
    pub open spec fn dot_req<U, X>(self, rhs: Vector3d<U>) -> bool where
        U: Mul<T, Output = X>,
        X: Add<Output = X>,
     {
        &&& U::obeys_mul_spec()
        &&& X::obeys_add_spec()
        &&& rhs.x.mul_req(self.x)
        &&& rhs.y.mul_req(self.y)
        &&& rhs.z.mul_req(self.z)
        &&& rhs.x.mul_spec(self.x).add_req(rhs.y.mul_spec(self.y))
        &&& rhs.x.mul_spec(self.x).add_spec(rhs.y.mul_spec(self.y)).add_req(rhs.z.mul_spec(self.z))
    }

    /// `rhs.x * self.x + rhs.y * self.y + rhs.z * self.z`, added from the left.
    pub open spec fn spec_dot<U, X>(self, rhs: Vector3d<U>) -> X where
        U: Mul<T, Output = X>,
        X: Add<Output = X>,
     {
        rhs.x.mul_spec(self.x).add_spec(rhs.y.mul_spec(self.y)).add_spec(rhs.z.mul_spec(self.z))
    }

    /// The dot product of two vectors. Each product takes the right-hand
    /// component times the left-hand one.
    pub fn dot<U: Mul<T, Output = X>, X: Add<Output = X>>(self, rhs: Vector3d<U>) -> (r: X)
        requires
            self.dot_req(rhs),
        ensures
            r == self.spec_dot(rhs),
    {
        rhs.x * self.x + rhs.y * self.y + rhs.z * self.z
    }
}

impl<T: Copy> Vector3d<T> {
    /// The six scalar products of `cross` are defined and their differences do not fail.
    pub open spec fn cross_req<U, X>(self, rhs: Vector3d<U>) -> bool where
        U: Copy + Mul<T, Output = X>,
        X: Add<Output = X> + Sub<Output = X>,
     {
        &&& U::obeys_mul_spec()
        &&& X::obeys_sub_spec()
        &&& rhs.z.mul_req(self.y)
        &&& rhs.y.mul_req(self.z)
        &&& rhs.x.mul_req(self.z)
        &&& rhs.z.mul_req(self.x)
        &&& rhs.y.mul_req(self.x)
        &&& rhs.x.mul_req(self.y)
        &&& rhs.z.mul_spec(self.y).sub_req(rhs.y.mul_spec(self.z))
        &&& rhs.x.mul_spec(self.z).sub_req(rhs.z.mul_spec(self.x))
        &&& rhs.y.mul_spec(self.x).sub_req(rhs.x.mul_spec(self.y))
    }

    /// The cross product, each product taking the right-hand component first.
    pub open spec fn spec_cross<U, X>(self, rhs: Vector3d<U>) -> Vector3d<X> where
        U: Copy + Mul<T, Output = X>,
        X: Add<Output = X> + Sub<Output = X>,
     {
        Vector3d {
            x: rhs.z.mul_spec(self.y).sub_spec(rhs.y.mul_spec(self.z)),
            y: rhs.x.mul_spec(self.z).sub_spec(rhs.z.mul_spec(self.x)),
            z: rhs.y.mul_spec(self.x).sub_spec(rhs.x.mul_spec(self.y)),
        }
    }

    /// The cross product of two vectors.
    pub fn cross<U: Copy + Mul<T, Output = X>, X: Add<Output = X> + Sub<Output = X>>(
        self,
        rhs: Vector3d<U>,
    ) -> (r: Vector3d<X>)
        requires
            self.cross_req(rhs),
        ensures
            r == self.spec_cross(rhs),
    {
        Vector3d::new(
            rhs.z * self.y - rhs.y * self.z,
            rhs.x * self.z - rhs.z * self.x,
            rhs.y * self.x - rhs.x * self.y,
        )
    }

    /// The squares of `norm2` are defined and their sum does not fail.
    pub open spec fn norm2_req<X>(self) -> bool where
        T: Mul<T, Output = X>,
        X: Add<Output = X>,
     {
        &&& T::obeys_mul_spec()
        &&& X::obeys_add_spec()
        &&& self.x.mul_req(self.x)
        &&& self.y.mul_req(self.y)
        &&& self.z.mul_req(self.z)
        &&& self.x.mul_spec(self.x).add_req(self.y.mul_spec(self.y))
        &&& self.x.mul_spec(self.x).add_spec(self.y.mul_spec(self.y)).add_req(self.z.mul_spec(self.z))
    }

    /// `x * x + y * y + z * z`, added from the left.
    pub open spec fn spec_norm2<X>(self) -> X where
        T: Mul<T, Output = X>,
        X: Add<Output = X>,
     {
        self.x.mul_spec(self.x).add_spec(self.y.mul_spec(self.y)).add_spec(self.z.mul_spec(self.z))
    }

    /// The square of the length of the vector.
    pub fn norm2<X: Add<Output = X>>(self) -> (r: X) where T: Mul<T, Output = X>
        requires
            self.norm2_req(),
        ensures
            r == self.spec_norm2(),
    {
        self.x * self.x + self.y * self.y + self.z * self.z
    }
}

impl<T> Vector3d<T> {
    /// A mutable reference to the component on axis `index`.
    pub fn index_mut(&mut self, index: usize) -> (r: &mut T)
        requires
            index < 3,
        ensures
            *r == old(self).spec_index(index as int),
            *final(self) == old(self).with_component(index as int, *final(r)),
    {
        match index {
            0 => &mut self.x,
            1 => &mut self.y,
            2 => &mut self.z,
            _ => vstd::pervasive::unreached(),
        }
    }
}

impl<T> Index<usize> for Vector3d<T> {
    type Output = T;

    /// The component on axis `index`; an axis past 2 is a caller's error.
    fn index(&self, index: usize) -> (r: &T)
        ensures
            *r == self.spec_index(index as int),
    {
        match index {
            0 => &self.x,
            1 => &self.y,
            2 => &self.z,
            _ => vstd::pervasive::unreached(),
        }
    }
}

impl<T> vstd::std_specs::core::IndexSpecImpl<usize> for Vector3d<T> {
    open spec fn index_req(&self, index: &usize) -> bool {
        *index < 3
    }
}

impl<T: Default> Default for Vector3d<T> {
    /// The vector whose components are all the scalar type's default.
    fn default() -> (r: Vector3d<T>)
        ensures
            is_default_vector(r),
    {
        Vector3d::new(T::default(), T::default(), T::default())
    }
}

} // verus!
