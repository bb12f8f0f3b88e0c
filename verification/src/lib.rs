mod laws;
mod matrix;
mod numeric;
mod vector;

pub use laws::cells_within;
pub use laws::lemma_dot_commutative;
pub use laws::lemma_inverse_unimodular;
pub use laws::lemma_magnitude_squared_is_dot;
pub use laws::lemma_matrix_mul_associative;
pub use laws::lemma_transpose_involution;
pub use laws::lemma_unity_maps_identically;
pub use matrix::Matrix;
pub use numeric::dot2_req;
pub use numeric::dot2_spec;
pub use numeric::isqrt;
pub use numeric::lemma_sqrt_floor_bounds;
pub use numeric::lemma_sqrt_floor_unique;
pub use numeric::sqrt_floor;
pub use numeric::Fractional;
pub use numeric::Numeric;
pub use vector::Vector;
