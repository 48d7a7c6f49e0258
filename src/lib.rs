//! A spatial transform with the FBX-style decomposition (translation, rotation,
//! scale, rotation and scaling pivots and offsets, pre- and post-rotation), its
//! lazily recomputed composed matrix, and a builder.
//!
//! Scalars are held as the bit patterns of IEEE-754 single-precision values and
//! compared with IEEE-754 equality. The floating-point arithmetic that turns
//! parameters into a matrix is supplied by the caller as a function; the
//! library decides when it runs and what is cached. The closed form of that
//! matrix is shown correct in exact arithmetic in `composition`.

mod algebra;
mod builder;
mod cache;
mod composition;
mod transform;

pub use algebra::{Matrix3, Matrix4, UnitQuaternion, Vector3, ONE_BITS};
pub use builder::TransformBuilder;
pub use cache::{
    lemma_change_is_seen, lemma_current_value_is_noop, lemma_same_value_is_noop,
    lemma_second_read_is_cached, lemma_singular_post_rotation_falls_back,
    lemma_transitions_keep_valid, lemma_values_equal_themselves,
};
pub use composition::{
    lemma_closed_form_is_product, lemma_identity_closed_form, lemma_rotation_about_pivot,
    lemma_trs_closed_form, lemma_translate_rotate_scale_example, Mat3i, Parameters, Vec3i,
};
pub use transform::{Components, Transform, TransformState};
