//! Basic data structures shared by the components.

mod number;
pub use number::{fits, Number};

mod color;
pub use color::{lemma_color_is_its_name, Color};

mod vector;
pub use vector::{
    greater, lemma_cross_is_antisymmetric, lemma_cross_is_dot_with_normal,
    lemma_min_and_max_bound_both, lesser, magnitude, Vector,
};

mod bounds;
pub use bounds::{
    lemma_bounds_hold_their_corners, lemma_merged_bounds_hold_both, lemma_spanning_bounds, Bounds,
};
