//! Algebraic laws of the vector operations, stated over the same spec
//! functions as the operations' contracts. The laws that need the scalar
//! arithmetic itself are stated for `i64` components, where every addition
//! and product they speak of is required to stay in range.

use vstd::prelude::*;
use std::ops::{Add, Mul};
use vstd::std_specs::ops::{AddSpec, MulSpec, NegSpec, SubSpec};
use crate::vector::{Vector3d, is_default_vector};
use crate::sum::{spec_sum, sum_req};

verus! {

/// Adding vectors is associative.
pub proof fn lemma_add_associative(a: Vector3d<i64>, b: Vector3d<i64>, c: Vector3d<i64>)
    requires
        a.add_req(b),
        a.add_spec(b).add_req(c),
        b.add_req(c),
        a.add_req(b.add_spec(c)),
    ensures
        a.add_spec(b).add_spec(c) == a.add_spec(b.add_spec(c)),
{
}

/// Adding vectors is commutative.
pub proof fn lemma_add_commutative(a: Vector3d<i64>, b: Vector3d<i64>)
    requires
        a.add_req(b),
    ensures
        b.add_req(a),
        a.add_spec(b) == b.add_spec(a),
{
}

/// A vector plus its negation is the default (zero) vector.
pub proof fn lemma_add_neg_is_default(a: Vector3d<i64>, d: Vector3d<i64>)
    requires
        a.neg_req(),
        is_default_vector(d),
    ensures
        a.add_req(a.neg_spec()),
        a.add_spec(a.neg_spec()) == d,
{
}

/// A vector minus itself is the default (zero) vector.
pub proof fn lemma_sub_self_is_default(a: Vector3d<i64>, d: Vector3d<i64>)
    requires
        is_default_vector(d),
    ensures
        a.sub_req(a),
        a.sub_spec(a) == d,
{
}

/// The dot product distributes over vector addition on the left.
pub proof fn lemma_dot_distributes_over_add(a: Vector3d<i64>, b: Vector3d<i64>, c: Vector3d<i64>)
    requires
        a.add_req(b),
        a.add_spec(b).dot_req::<i64, i64>(c),
        a.dot_req::<i64, i64>(c),
        b.dot_req::<i64, i64>(c),
        a.spec_dot::<i64, i64>(c).add_req(b.spec_dot::<i64, i64>(c)),
    ensures
        a.add_spec(b).spec_dot::<i64, i64>(c) == a.spec_dot::<i64, i64>(c).add_spec(
            b.spec_dot::<i64, i64>(c),
        ),
{
    assert(c.x * (a.x + b.x) == c.x * a.x + c.x * b.x) by (nonlinear_arith);
    assert(c.y * (a.y + b.y) == c.y * a.y + c.y * b.y) by (nonlinear_arith);
    assert(c.z * (a.z + b.z) == c.z * a.z + c.z * b.z) by (nonlinear_arith);
}

/// The cross product of a vector with itself is the default (zero) vector.
pub proof fn lemma_cross_self_is_default(a: Vector3d<i64>, d: Vector3d<i64>)
    requires
        a.cross_req::<i64, i64>(a),
        is_default_vector(d),
    ensures
        a.spec_cross::<i64, i64>(a) == d,
{
    assert(a.z * a.y == a.y * a.z) by (nonlinear_arith);
    assert(a.x * a.z == a.z * a.x) by (nonlinear_arith);
    assert(a.y * a.x == a.x * a.y) by (nonlinear_arith);
}

/// The squared norm of a vector is its dot product with itself, and one is
/// defined exactly when the other is.
pub proof fn lemma_norm2_is_self_dot<T, X>(a: Vector3d<T>)
    where
        T: Copy + Mul<T, Output = X>,
        X: Add<Output = X>,
    ensures
        a.norm2_req::<X>() == a.dot_req::<T, X>(a),
        a.spec_norm2::<X>() == a.spec_dot::<T, X>(a),
{
}

/// Summing one vector gives that vector.
pub proof fn lemma_sum_of_one<T: Add<T, Output = T>>(v: Vector3d<T>)
    ensures
        sum_req(seq![v]),
        spec_sum(seq![v]) == v,
{
}

/// Summing two vectors gives their sum.
pub proof fn lemma_sum_of_two<T: Add<T, Output = T>>(v1: Vector3d<T>, v2: Vector3d<T>)
    ensures
        sum_req(seq![v1, v2]) <==> (T::obeys_add_spec() && v1.add_req(v2)),
        spec_sum(seq![v1, v2]) == v1.add_spec(v2),
{
    let s = seq![v1, v2];
    assert(s.drop_last() =~= seq![v1]);
    assert(s.take(1) =~= seq![v1]);
    assert(spec_sum(seq![v1]) == v1);
    assert(spec_sum(s) == v1.add_spec(v2));
    if T::obeys_add_spec() && v1.add_req(v2) {
        assert forall|k: int| 1 <= k < s.len() implies #[trigger] spec_sum(s.take(k)).add_req(
            s[k],
        ) by {
            assert(k == 1);
        }
    }
    if sum_req(s) {
        assert(spec_sum(s.take(1)).add_req(s[1]));
    }
}

/// Axes 0, 1 and 2 are x, y and z.
pub proof fn lemma_index_axes<T>(v: Vector3d<T>)
    ensures
        v[0] == v.x,
        v[1] == v.y,
        v[2] == v.z,
{
}

/// After writing `k` on axis `i`, reading axis `i` gives `k` and every other
/// axis is unchanged.
pub proof fn lemma_write_then_read<T>(v: Vector3d<T>, i: int, j: int, k: T)
    requires
        0 <= i < 3,
        0 <= j < 3,
    ensures
        v.with_component(i, k)[j] == if i == j {
            k
        } else {
            v[j]
        },
{
}

} // verus!
