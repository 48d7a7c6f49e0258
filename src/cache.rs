//! Laws of the dirty-flag and cache discipline, over `TransformState`.
use vstd::prelude::*;

use crate::algebra::{inverse_or_identity, Matrix3, Matrix4, UnitQuaternion, Vector3};
use crate::transform::{Components, TransformState};

verus! {

/// Every transition keeps a state valid: storing parameters, storing a
/// post-rotation with any derived matrix, and reading the matrix.
pub proof fn lemma_transitions_keep_valid(
    s: TransformState,
    c: Components,
    differs: bool,
    q: UnitQuaternion,
    inverse: Matrix3,
    m: Matrix4,
)
    requires
        s.valid(),
    ensures
        s.store(c, differs).valid(),
        s.store_post_rotation(q, inverse).valid(),
        s.refresh(m).valid(),
{
}

/// Once the matrix has been read, reading it again returns the same cached
/// matrix whatever a new composition would give, leaves the state as it is, and
/// that matrix was composed from the current inputs.
pub proof fn lemma_second_read_is_cached(s: TransformState, first: Matrix4, second: Matrix4)
    requires
        s.valid(),
    ensures
        s.refresh(first).refresh(second) == s.refresh(first),
        s.refresh(first).refresh(second).matrix == s.refresh(first).matrix,
        s.refresh(first).computed_from == Some(s.refresh(first).inputs()),
{
}

/// After a read, setting a value that differs from the one held makes the next
/// read compose anew from the new parameters.
pub proof fn lemma_change_is_seen(s: TransformState, m: Matrix4, c: Components, next: Matrix4)
    requires
        s.valid(),
    ensures
        s.refresh(m).store(c, true).dirty,
        s.refresh(m).store(c, true).components == c,
        s.refresh(m).store(c, true).refresh(next).matrix == next,
        s.refresh(m).store(c, true).refresh(next).computed_from == Some((c, s.post_rotation_matrix)),
{
}

/// On a clean state, setting a value equal to the one held changes nothing, so
/// no new composition is needed, however many times it is done.
pub proof fn lemma_same_value_is_noop(s: TransformState, c: Components)
    requires
        !s.dirty,
    ensures
        s.store(c, false) == s,
        s.store(c, false).store(c, false) == s,
{
}

/// A value without NaN coordinates equals itself, so setting the value a
/// clean transform already holds leaves it clean: shown here for the
/// translation and for the post-rotation, whose derived matrix is then kept.
pub proof fn lemma_current_value_is_noop(s: TransformState, inverse: Matrix3)
    requires
        !s.dirty,
        !s.components.local_position.has_nan(),
        !s.components.post_rotation.has_nan(),
    ensures
        s.components.local_position.same(s.components.local_position),
        s.store(s.components, !s.components.local_position.same(s.components.local_position)) == s,
        !s.post_rotation_changes(s.components.post_rotation),
        s.store_post_rotation(s.components.post_rotation, inverse) == s,
{
}

/// Values without NaN coordinates equal themselves.
pub proof fn lemma_values_equal_themselves(v: Vector3, q: UnitQuaternion)
    requires
        !v.has_nan(),
        !q.has_nan(),
    ensures
        v.same(v),
        q.same(q),
{
}

/// Where the inverse of the post-rotation's rotation matrix cannot be found,
/// a change of post-rotation leaves the identity as the derived matrix.
pub proof fn lemma_singular_post_rotation_falls_back(s: TransformState, q: UnitQuaternion)
    requires
        s.post_rotation_changes(q),
    ensures
        s.store_post_rotation(q, inverse_or_identity(None)).post_rotation_matrix
            == Matrix3::spec_identity(),
        s.store_post_rotation(q, inverse_or_identity(None)).components.post_rotation == q,
        s.store_post_rotation(q, inverse_or_identity(None)).dirty,
{
}

} // verus!
