//! Summing a sequence of vectors: a fold by `+` from the first element, or
//! the default vector when there is none.

use vstd::prelude::*;
use std::ops::Add;
use vstd::std_specs::ops::AddSpec;
use crate::vector::{Vector3d, is_default_vector};

verus! {

/// The sum of a non-empty sequence, added from the left:
/// `((s[0] + s[1]) + s[2]) + ...`.
pub open spec fn spec_sum<T: Add<T, Output = T>>(s: Seq<Vector3d<T>>) -> Vector3d<T>
    decreases s.len(),
{
    if s.len() <= 1 {
        s[0]
    } else {
        spec_sum(s.drop_last()).add_spec(s.last())
    }
}

/// Every addition in the sum of `s` is defined.
pub open spec fn sum_req<T: Add<T, Output = T>>(s: Seq<Vector3d<T>>) -> bool {
    s.len() > 1 ==> {
        &&& T::obeys_add_spec()
        &&& forall|k: int| 1 <= k < s.len() ==> #[trigger] spec_sum(s.take(k)).add_req(s[k])
    }
}

proof fn lemma_sum_step<T: Add<T, Output = T>>(s: Seq<Vector3d<T>>, k: int)
    requires
        1 <= k < s.len(),
    ensures
        spec_sum(s.take(k + 1)) == spec_sum(s.take(k)).add_spec(s[k]),
{
    assert(s.take(k + 1).drop_last() =~= s.take(k));
}

impl<T: Add<T, Output = T> + Default> Vector3d<T> {
    /// The sum of the vectors of `vs`, taken by value; the default vector
    /// when `vs` is empty.
    pub fn sum_owned(vs: Vec<Vector3d<T>>) -> (r: Vector3d<T>)
        requires
            sum_req(vs@),
        ensures
            vs@.len() == 0 ==> is_default_vector(r),
            vs@.len() > 0 ==> r == spec_sum(vs@),
    {
        let ghost s = vs@;
        let mut acc: Option<Vector3d<T>> = None;
        for v in it: vs.into_iter()
            invariant
                it.seq() == s,
                sum_req(s),
                it.index() == 0 ==> acc is None,
                it.index() > 0 ==> acc == Some(spec_sum(s.take(it.index() as int))),
        {
            acc = match acc {
                None => Some(v),
                Some(a) => {
                    proof {
                        lemma_sum_step(s, it.index() as int);
                    }
                    Some(a + v)
                },
            };
        }
        proof {
            assert(s.take(s.len() as int) =~= s);
        }
        match acc {
            Some(a) => a,
            None => Vector3d::default(),
        }
    }
}

impl<T: Copy + Add<T, Output = T> + Default> Vector3d<T> {
    /// The sum of the vectors that `vs` refers to, each copied; the default
    /// vector when `vs` is empty.
    pub fn sum(vs: &[Vector3d<T>]) -> (r: Vector3d<T>)
        requires
            sum_req(vs@),
        ensures
            vs@.len() == 0 ==> is_default_vector(r),
            vs@.len() > 0 ==> r == spec_sum(vs@),
    {
        if vs.len() == 0 {
            return Vector3d::default();
        }
        let mut acc = vs[0];
        let mut i: usize = 1;
        while i < vs.len()
            invariant
                1 <= i <= vs@.len(),
                sum_req(vs@),
                acc == spec_sum(vs@.take(i as int)),
            decreases vs.len() - i,
        {
            proof {
                lemma_sum_step(vs@, i as int);
            }
            acc = acc + vs[i];
            i += 1;
        }
        proof {
            assert(vs@.take(i as int) =~= vs@);
        }
        acc
    }
}

} // verus!
