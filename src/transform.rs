use vstd::prelude::*;

use crate::algebra::{inverse_or_identity, unwrap_inverse, Matrix3, Matrix4, UnitQuaternion, Vector3};

verus! {

/// The nine independent parameters of a transform.
#[derive(Clone, Copy, Debug, PartialEq, Eq, Structural)]
pub struct Components {
    pub local_scale: Vector3,
    pub local_position: Vector3,
    pub local_rotation: UnitQuaternion,
    pub pre_rotation: UnitQuaternion,
    pub post_rotation: UnitQuaternion,
    pub rotation_offset: Vector3,
    pub rotation_pivot: Vector3,
    pub scaling_offset: Vector3,
    pub scaling_pivot: Vector3,
}

impl Components {
    /// Unit scale, zero vectors and identity rotations: the transform that
    /// leaves every point where it is.
    pub open spec fn spec_identity() -> Components {
        Components {
            local_scale: Vector3::spec_new(crate::algebra::ONE_BITS, crate::algebra::ONE_BITS, crate::algebra::ONE_BITS),
            local_position: Vector3::spec_new(0, 0, 0),
            local_rotation: UnitQuaternion::spec_identity(),
            pre_rotation: UnitQuaternion::spec_identity(),
            post_rotation: UnitQuaternion::spec_identity(),
            rotation_offset: Vector3::spec_new(0, 0, 0),
            rotation_pivot: Vector3::spec_new(0, 0, 0),
            scaling_offset: Vector3::spec_new(0, 0, 0),
            scaling_pivot: Vector3::spec_new(0, 0, 0),
        }
    }

    pub fn identity() -> (r: Components)
        ensures
            r == Components::spec_identity(),
    {
        Components {
            local_scale: Vector3::ones(),
            local_position: Vector3::zeros(),
            local_rotation: UnitQuaternion::identity(),
            pre_rotation: UnitQuaternion::identity(),
            post_rotation: UnitQuaternion::identity(),
            rotation_offset: Vector3::zeros(),
            rotation_pivot: Vector3::zeros(),
            scaling_offset: Vector3::zeros(),
            scaling_pivot: Vector3::zeros(),
        }
    }
}

/// The abstract state of a `Transform`.
pub struct TransformState {
    /// The parameters as last stored.
    pub components: Components,
    /// The inverse of the post-rotation's rotation matrix (or the identity).
    pub post_rotation_matrix: Matrix3,
    /// Whether some input changed since the matrix was last composed.
    pub dirty: bool,
    /// The composed matrix as last computed.
    pub matrix: Matrix4,
    /// The inputs the cached matrix was composed from, once it has been.
    pub computed_from: Option<(Components, Matrix3)>,
}

impl TransformState {
    /// What the composition reads.
    pub open spec fn inputs(self) -> (Components, Matrix3) {
        (self.components, self.post_rotation_matrix)
    }

    /// A clean state's cached matrix was composed from its current inputs.
    pub open spec fn valid(self) -> bool {
        !self.dirty ==> self.computed_from == Some(self.inputs())
    }

    /// The state of a freshly made transform with parameters `c` and derived
    /// inverse post-rotation `inverse`.
    pub open spec fn fresh(c: Components, inverse: Matrix3) -> TransformState {
        TransformState {
            components: c,
            post_rotation_matrix: inverse,
            dirty: true,
            matrix: Matrix4::spec_identity(),
            computed_from: None,
        }
    }

    /// Storing parameters `c`, where `differs` tells whether the value set
    /// differs from the one held: on a change (`differs`, or the state already
    /// dirty) they are kept and the state becomes dirty; otherwise nothing moves.
    pub open spec fn store(self, c: Components, differs: bool) -> TransformState {
        if self.dirty || differs {
            TransformState { components: c, dirty: true, ..self }
        } else {
            self
        }
    }

    /// Whether setting post-rotation `q` counts as a change.
    pub open spec fn post_rotation_changes(self, q: UnitQuaternion) -> bool {
        self.dirty || !self.components.post_rotation.same(q)
    }

    /// Storing post-rotation `q`, with `inverse` as the derived matrix on a change.
    pub open spec fn store_post_rotation(self, q: UnitQuaternion, inverse: Matrix3) -> TransformState {
        let c = Components { post_rotation: q, ..self.components };
        if self.post_rotation_changes(q) {
            TransformState { components: c, post_rotation_matrix: inverse, dirty: true, ..self }
        } else {
            self
        }
    }

    /// Reading the matrix, with `m` the result of composing the current inputs:
    /// a dirty state caches `m` and becomes clean, a clean one stays as it is.
    pub open spec fn refresh(self, m: Matrix4) -> TransformState {
        if self.dirty {
            TransformState { dirty: false, matrix: m, computed_from: Some(self.inputs()), ..self }
        } else {
            self
        }
    }
}

/// A transform with a lazily composed, cached matrix.
#[derive(Clone, Copy)]
pub struct Transform {
    components: Components,
    post_rotation_matrix: Matrix3,
    dirty: bool,
    matrix: Matrix4,
    computed_from: Ghost<Option<(Components, Matrix3)>>,
}

impl View for Transform {
    type V = TransformState;

    closed spec fn view(&self) -> TransformState {
        TransformState {
            components: self.components,
            post_rotation_matrix: self.post_rotation_matrix,
            dirty: self.dirty,
            matrix: self.matrix,
            computed_from: self.computed_from@,
        }
    }
}

impl Transform {
    pub open spec fn wf(&self) -> bool {
        self@.valid()
    }

    /// A dirty transform with parameters `c`, whose derived inverse post-rotation
    /// comes from `invert` (the identity where `invert` finds none).
    pub(crate) fn from_components<F>(c: Components, invert: F) -> (r: Transform)
        where
            F: Fn(UnitQuaternion) -> Option<Matrix3>,
        requires
            invert.requires((c.post_rotation,)),
        ensures
            r.wf(),
            exists|inv: Option<Matrix3>|
                #[trigger] invert.ensures((c.post_rotation,), inv)
                    && r@ == TransformState::fresh(c, inverse_or_identity(inv)),
    {
        let inv = invert(c.post_rotation);
        Transform {
            components: c,
            post_rotation_matrix: unwrap_inverse(inv),
            dirty: true,
            matrix: Matrix4::identity(),
            computed_from: Ghost(None),
        }
    }

    /// The transform that has no effect.
    pub fn identity() -> (r: Transform)
        ensures
            r.wf(),
            r@ == TransformState::fresh(Components::spec_identity(), Matrix3::spec_identity()),
    {
        Transform {
            components: Components::identity(),
            post_rotation_matrix: Matrix3::identity(),
            dirty: true,
            matrix: Matrix4::identity(),
            computed_from: Ghost(None),
        }
    }

    fn store(&mut self, c: Components, differs: bool)
        requires
            old(self).wf(),
        ensures
            final(self).wf(),
            final(self)@ == old(self)@.store(c, differs),
    {
        if self.dirty || differs {
            self.components = c;
            self.dirty = true;
        }
    }

    /// All nine parameters.
    pub fn components(&self) -> (r: Components)
        ensures
            r == self@.components,
    {
        self.components
    }

    /// Whether the matrix will be composed anew on the next read.
    pub fn is_dirty(&self) -> (r: bool)
        ensures
            r == self@.dirty,
    {
        self.dirty
    }

    /// The inverse of the post-rotation's rotation matrix, or the identity where
    /// it had none.
    pub fn post_rotation_matrix(&self) -> (r: Matrix3)
        ensures
            r == self@.post_rotation_matrix,
    {
        self.post_rotation_matrix
    }

    /// The composed matrix. Where some input changed since the last read, it is
    /// composed anew by `compose` from the parameters and the inverse
    /// post-rotation, and cached; otherwise the cached one is returned and
    /// `compose` is not called.
    pub fn matrix<F>(&mut self, compose: F) -> (r: Matrix4)
        where
            F: Fn(Components, Matrix3) -> Matrix4,
        requires
            old(self).wf(),
            compose.requires((old(self)@.components, old(self)@.post_rotation_matrix)),
        ensures
            final(self).wf(),
            final(self)@ == old(self)@.refresh(r),
            r == final(self)@.matrix,
            final(self)@.computed_from == Some(final(self)@.inputs()),
            old(self)@.dirty ==> compose.ensures(
                (old(self)@.components, old(self)@.post_rotation_matrix),
                r,
            ),
            !old(self)@.dirty ==> r == old(self)@.matrix,
    {
        if self.dirty {
            let m = compose(self.components, self.post_rotation_matrix);
            self.matrix = m;
            self.dirty = false;
            self.computed_from = Ghost(Some((self.components, self.post_rotation_matrix)));
        }
        self.matrix
    }
    /// Current translation.
    pub fn position(&self) -> (r: Vector3)
        ensures
            r == self@.components.local_position,
    {
        self.components.local_position
    }

    /// Sets the translation. The matrix is composed anew only where the value
    /// differs, or some other input changed since the last read.
    pub fn set_position(&mut self, local_position: Vector3) -> (r: &mut Transform)
        requires
            old(self).wf(),
        ensures
            r.wf(),
            r@ == old(self)@.store(
                Components { local_position, ..old(self)@.components },
                !old(self)@.components.local_position.same(local_position),
            ),
            *final(self) == *final(r),
    {
        let differs = !self.components.local_position.equals(&local_position);
        self.store(Components { local_position, ..self.components }, differs);
        self
    }
    /// Current primary rotation.
    pub fn rotation(&self) -> (r: UnitQuaternion)
        ensures
            r == self@.components.local_rotation,
    {
        self.components.local_rotation
    }

    /// Sets the primary rotation, marking the transform dirty on a change.
    pub fn set_rotation(&mut self, local_rotation: UnitQuaternion) -> (r: &mut Transform)
        requires
            old(self).wf(),
        ensures
            r.wf(),
            r@ == old(self)@.store(
                Components { local_rotation, ..old(self)@.components },
                !old(self)@.components.local_rotation.same(local_rotation),
            ),
            *final(self) == *final(r),
    {
        let differs = !self.components.local_rotation.equals(&local_rotation);
        self.store(Components { local_rotation, ..self.components }, differs);
        self
    }

    /// Current per-axis scale.
    pub fn scale(&self) -> (r: Vector3)
        ensures
            r == self@.components.local_scale,
    {
        self.components.local_scale
    }

    /// Sets the per-axis scale, marking the transform dirty on a change.
    pub fn set_scale(&mut self, local_scale: Vector3) -> (r: &mut Transform)
        requires
            old(self).wf(),
        ensures
            r.wf(),
            r@ == old(self)@.store(
                Components { local_scale, ..old(self)@.components },
                !old(self)@.components.local_scale.same(local_scale),
            ),
            *final(self) == *final(r),
    {
        let differs = !self.components.local_scale.equals(&local_scale);
        self.store(Components { local_scale, ..self.components }, differs);
        self
    }

    /// Current rotation applied before the primary one.
    pub fn pre_rotation(&self) -> (r: UnitQuaternion)
        ensures
            r == self@.components.pre_rotation,
    {
        self.components.pre_rotation
    }

    /// Sets the rotation applied before the primary one, marking the transform dirty on a change.
    pub fn set_pre_rotation(&mut self, pre_rotation: UnitQuaternion) -> (r: &mut Transform)
        requires
            old(self).wf(),
        ensures
            r.wf(),
            r@ == old(self)@.store(
                Components { pre_rotation, ..old(self)@.components },
                !old(self)@.components.pre_rotation.same(pre_rotation),
            ),
            *final(self) == *final(r),
    {
        let differs = !self.components.pre_rotation.equals(&pre_rotation);
        self.store(Components { pre_rotation, ..self.components }, differs);
        self
    }

    /// Current offset of the rotation pivot.
    pub fn rotation_offset(&self) -> (r: Vector3)
        ensures
            r == self@.components.rotation_offset,
    {
        self.components.rotation_offset
    }

    /// Sets the offset of the rotation pivot, marking the transform dirty on a change.
    pub fn set_rotation_offset(&mut self, rotation_offset: Vector3) -> (r: &mut Transform)
        requires
            old(self).wf(),
        ensures
            r.wf(),
            r@ == old(self)@.store(
                Components { rotation_offset, ..old(self)@.components },
                !old(self)@.components.rotation_offset.same(rotation_offset),
            ),
            *final(self) == *final(r),
    {
        let differs = !self.components.rotation_offset.equals(&rotation_offset);
        self.store(Components { rotation_offset, ..self.components }, differs);
        self
    }

    /// Current point rotations are performed about.
    pub fn rotation_pivot(&self) -> (r: Vector3)
        ensures
            r == self@.components.rotation_pivot,
    {
        self.components.rotation_pivot
    }

    /// Sets the point rotations are performed about, marking the transform dirty on a change.
    pub fn set_rotation_pivot(&mut self, rotation_pivot: Vector3) -> (r: &mut Transform)
        requires
            old(self).wf(),
        ensures
            r.wf(),
            r@ == old(self)@.store(
                Components { rotation_pivot, ..old(self)@.components },
                !old(self)@.components.rotation_pivot.same(rotation_pivot),
            ),
            *final(self) == *final(r),
    {
        let differs = !self.components.rotation_pivot.equals(&rotation_pivot);
        self.store(Components { rotation_pivot, ..self.components }, differs);
        self
    }

    /// Current offset of the scaling pivot.
    pub fn scaling_offset(&self) -> (r: Vector3)
        ensures
            r == self@.components.scaling_offset,
    {
        self.components.scaling_offset
    }

    /// Sets the offset of the scaling pivot, marking the transform dirty on a change.
    pub fn set_scaling_offset(&mut self, scaling_offset: Vector3) -> (r: &mut Transform)
        requires
            old(self).wf(),
        ensures
            r.wf(),
            r@ == old(self)@.store(
                Components { scaling_offset, ..old(self)@.components },
                !old(self)@.components.scaling_offset.same(scaling_offset),
            ),
            *final(self) == *final(r),
    {
        let differs = !self.components.scaling_offset.equals(&scaling_offset);
        self.store(Components { scaling_offset, ..self.components }, differs);
        self
    }

    /// Current point scaling is performed about.
    pub fn scaling_pivot(&self) -> (r: Vector3)
        ensures
            r == self@.components.scaling_pivot,
    {
        self.components.scaling_pivot
    }

    /// Sets the point scaling is performed about, marking the transform dirty on a change.
    pub fn set_scaling_pivot(&mut self, scaling_pivot: Vector3) -> (r: &mut Transform)
        requires
            old(self).wf(),
        ensures
            r.wf(),
            r@ == old(self)@.store(
                Components { scaling_pivot, ..old(self)@.components },
                !old(self)@.components.scaling_pivot.same(scaling_pivot),
            ),
            *final(self) == *final(r),
    {
        let differs = !self.components.scaling_pivot.equals(&scaling_pivot);
        self.store(Components { scaling_pivot, ..self.components }, differs);
        self
    }

    /// Current rotation applied after the primary one.
    pub fn post_rotation(&self) -> (r: UnitQuaternion)
        ensures
            r == self@.components.post_rotation,
    {
        self.components.post_rotation
    }

    /// Sets the rotation applied after the primary one. On a change the derived
    /// inverse post-rotation is recomputed by `invert`, which gives the inverse
    /// of the quaternion's rotation matrix where there is one; where there is
    /// none the identity stands in.
    pub fn set_post_rotation<F>(&mut self, post_rotation: UnitQuaternion, invert: F) -> (r: &mut Transform)
        where
            F: Fn(UnitQuaternion) -> Option<Matrix3>,
        requires
            old(self).wf(),
            invert.requires((post_rotation,)),
        ensures
            r.wf(),
            r@ == old(self)@.store_post_rotation(post_rotation, r@.post_rotation_matrix),
            old(self)@.post_rotation_changes(post_rotation) ==> exists|inv: Option<Matrix3>|
                #[trigger] invert.ensures((post_rotation,), inv)
                    && r@.post_rotation_matrix == inverse_or_identity(inv),
            *final(self) == *final(r),
    {
        if self.dirty || !self.components.post_rotation.equals(&post_rotation) {
            let inv = invert(post_rotation);
            self.components = Components { post_rotation, ..self.components };
            self.post_rotation_matrix = unwrap_inverse(inv);
            self.dirty = true;
        }
        self
    }

    /// Shifts the translation by `delta`, with `sum` the vector sum; the
    /// transform is marked dirty whatever `delta` is.
    pub fn offset<F>(&mut self, delta: Vector3, sum: F) -> (r: &mut Transform)
        where
            F: Fn(Vector3, Vector3) -> Vector3,
        requires
            old(self).wf(),
            sum.requires((old(self)@.components.local_position, delta)),
        ensures
            r.wf(),
            sum.ensures((old(self)@.components.local_position, delta), r@.components.local_position),
            r@ == (TransformState {
                components: Components { local_position: r@.components.local_position, ..old(self)@.components },
                dirty: true,
                ..old(self)@
            }),
            *final(self) == *final(r),
    {
        let moved = sum(self.components.local_position, delta);
        self.components = Components { local_position: moved, ..self.components };
        self.dirty = true;
        self
    }
}

impl Default for Transform {
    fn default() -> (r: Transform)
        ensures
            r.wf(),
            r@ == TransformState::fresh(Components::spec_identity(), Matrix3::spec_identity()),
    {
        Transform::identity()
    }
}

} // verus!
