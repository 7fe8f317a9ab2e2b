//! Component-wise operators. `+`, `-` and unary `-` keep the scalar type;
//! `*` and `/` by a scalar may change it, as units change when multiplied.
//! Each operator is defined where every component operation is (`add_req`
//! and the like) and, for a scalar type that follows its own operator
//! specification, gives the component-wise result.

use vstd::prelude::*;
use std::ops::{Add, Div, Mul, Neg, Sub};
use vstd::std_specs::ops::{AddSpec, DivSpec, MulSpec, NegSpec, SubSpec};
use crate::vector::Vector3d;

verus! {

impl<T: Add<T, Output = T>> Add<Vector3d<T>> for Vector3d<T> {
    type Output = Vector3d<T>;

    fn add(self, rhs: Vector3d<T>) -> (r: Vector3d<T>)
        ensures
            T::obeys_add_spec() ==> r.x == self.x.add_spec(rhs.x),
            T::obeys_add_spec() ==> r.y == self.y.add_spec(rhs.y),
            T::obeys_add_spec() ==> r.z == self.z.add_spec(rhs.z),
    {
        Vector3d::new(self.x + rhs.x, self.y + rhs.y, self.z + rhs.z)
    }
}

impl<T: Add<T, Output = T>> vstd::std_specs::ops::AddSpecImpl<Vector3d<T>> for Vector3d<T> {
    open spec fn obeys_add_spec() -> bool {
        T::obeys_add_spec()
    }

    open spec fn add_req(self, rhs: Vector3d<T>) -> bool {
        &&& self.x.add_req(rhs.x)
        &&& self.y.add_req(rhs.y)
        &&& self.z.add_req(rhs.z)
    }

    open spec fn add_spec(self, rhs: Vector3d<T>) -> Vector3d<T> {
        Vector3d {
            x: self.x.add_spec(rhs.x),
            y: self.y.add_spec(rhs.y),
            z: self.z.add_spec(rhs.z),
        }
    }
}

impl<T: Sub<T, Output = T>> Sub<Vector3d<T>> for Vector3d<T> {
    type Output = Vector3d<T>;

    fn sub(self, rhs: Vector3d<T>) -> (r: Vector3d<T>)
        ensures
            T::obeys_sub_spec() ==> r.x == self.x.sub_spec(rhs.x),
            T::obeys_sub_spec() ==> r.y == self.y.sub_spec(rhs.y),
            T::obeys_sub_spec() ==> r.z == self.z.sub_spec(rhs.z),
    {
        Vector3d::new(self.x - rhs.x, self.y - rhs.y, self.z - rhs.z)
    }
}

impl<T: Sub<T, Output = T>> vstd::std_specs::ops::SubSpecImpl<Vector3d<T>> for Vector3d<T> {
    open spec fn obeys_sub_spec() -> bool {
        T::obeys_sub_spec()
    }

    open spec fn sub_req(self, rhs: Vector3d<T>) -> bool {
        &&& self.x.sub_req(rhs.x)
        &&& self.y.sub_req(rhs.y)
        &&& self.z.sub_req(rhs.z)
    }

    open spec fn sub_spec(self, rhs: Vector3d<T>) -> Vector3d<T> {
        Vector3d {
            x: self.x.sub_spec(rhs.x),
            y: self.y.sub_spec(rhs.y),
            z: self.z.sub_spec(rhs.z),
        }
    }
}

impl<T: Neg<Output = T>> Neg for Vector3d<T> {
    type Output = Vector3d<T>;

    fn neg(self) -> (r: Vector3d<T>)
        ensures
            T::obeys_neg_spec() ==> r.x == self.x.neg_spec(),
            T::obeys_neg_spec() ==> r.y == self.y.neg_spec(),
            T::obeys_neg_spec() ==> r.z == self.z.neg_spec(),
    {
        Vector3d::new(self.x.neg(), self.y.neg(), self.z.neg())
    }
}

impl<T: Neg<Output = T>> vstd::std_specs::ops::NegSpecImpl for Vector3d<T> {
    open spec fn obeys_neg_spec() -> bool {
        T::obeys_neg_spec()
    }

    open spec fn neg_req(self) -> bool {
        &&& self.x.neg_req()
        &&& self.y.neg_req()
        &&& self.z.neg_req()
    }

    open spec fn neg_spec(self) -> Vector3d<T> {
        Vector3d { x: self.x.neg_spec(), y: self.y.neg_spec(), z: self.z.neg_spec() }
    }
}

impl<S: Copy, X, T: Mul<S, Output = X>> Mul<S> for Vector3d<T> {
    type Output = Vector3d<X>;

    fn mul(self, rhs: S) -> (r: Vector3d<X>)
        ensures
            T::obeys_mul_spec() ==> r.x == self.x.mul_spec(rhs),
            T::obeys_mul_spec() ==> r.y == self.y.mul_spec(rhs),
            T::obeys_mul_spec() ==> r.z == self.z.mul_spec(rhs),
    {
        Vector3d::new(self.x * rhs, self.y * rhs, self.z * rhs)
    }
}

impl<S: Copy, X, T: Mul<S, Output = X>> vstd::std_specs::ops::MulSpecImpl<S> for Vector3d<T> {
    open spec fn obeys_mul_spec() -> bool {
        T::obeys_mul_spec()
    }

    open spec fn mul_req(self, rhs: S) -> bool {
        &&& self.x.mul_req(rhs)
        &&& self.y.mul_req(rhs)
        &&& self.z.mul_req(rhs)
    }

    open spec fn mul_spec(self, rhs: S) -> Vector3d<X> {
        Vector3d { x: self.x.mul_spec(rhs), y: self.y.mul_spec(rhs), z: self.z.mul_spec(rhs) }
    }
}

impl<S: Copy, X, T: Div<S, Output = X>> Div<S> for Vector3d<T> {
    type Output = Vector3d<X>;

    fn div(self, rhs: S) -> (r: Vector3d<X>)
        ensures
            T::obeys_div_spec() ==> r.x == self.x.div_spec(rhs),
            T::obeys_div_spec() ==> r.y == self.y.div_spec(rhs),
            T::obeys_div_spec() ==> r.z == self.z.div_spec(rhs),
    {
        Vector3d::new(self.x / rhs, self.y / rhs, self.z / rhs)
    }
}

impl<S: Copy, X, T: Div<S, Output = X>> vstd::std_specs::ops::DivSpecImpl<S> for Vector3d<T> {
    open spec fn obeys_div_spec() -> bool {
        T::obeys_div_spec()
    }

    open spec fn div_req(self, rhs: S) -> bool {
        &&& self.x.div_req(rhs)
        &&& self.y.div_req(rhs)
        &&& self.z.div_req(rhs)
    }

    open spec fn div_spec(self, rhs: S) -> Vector3d<X> {
        Vector3d { x: self.x.div_spec(rhs), y: self.y.div_spec(rhs), z: self.z.div_spec(rhs) }
    }
}

} // verus!
