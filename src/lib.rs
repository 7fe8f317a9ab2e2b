//! A generic three-dimensional vector whose arithmetic follows the arithmetic
//! of its scalar type, so that scalars carrying units keep them checked.

mod vector;
mod ops;
mod sum;
mod display;
mod laws;

pub use vector::{Vector3d, default_scalar, is_default_vector};
pub use sum::{spec_sum, sum_req};
pub use laws::{
    lemma_add_associative, lemma_add_commutative, lemma_add_neg_is_default,
    lemma_cross_self_is_default, lemma_dot_distributes_over_add, lemma_index_axes,
    lemma_norm2_is_self_dot, lemma_sub_self_is_default, lemma_sum_of_one, lemma_sum_of_two,
    lemma_write_then_read,
};
pub use display::{Alignment, pad, parenthesized, spaces, spec_padded, spec_parenthesized};



