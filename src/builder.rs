use vstd::prelude::*;

use crate::algebra::{inverse_or_identity, Matrix3, UnitQuaternion, Vector3, ONE_BITS};
use crate::transform::{Components, Transform, TransformState};

verus! {

/// Gathers the parameters of a transform one at a time; those left unset take
/// the identity transform's values.
#[derive(Clone, Copy, Debug, PartialEq, Eq, Structural)]
pub struct TransformBuilder {
    pub local_scale: Option<Vector3>,
    pub local_position: Option<Vector3>,
    pub local_rotation: Option<UnitQuaternion>,
    pub pre_rotation: Option<UnitQuaternion>,
    pub post_rotation: Option<UnitQuaternion>,
    pub rotation_offset: Option<Vector3>,
    pub rotation_pivot: Option<Vector3>,
    pub scaling_offset: Option<Vector3>,
    pub scaling_pivot: Option<Vector3>,
}

impl TransformBuilder {
    /// The builder with every parameter unset.
    pub open spec fn spec_new() -> TransformBuilder {
        TransformBuilder {
            local_scale: None,
            local_position: None,
            local_rotation: None,
            pre_rotation: None,
            post_rotation: None,
            rotation_offset: None,
            rotation_pivot: None,
            scaling_offset: None,
            scaling_pivot: None,
        }
    }

    /// A builder with no parameter set: it builds the identity transform.
    pub fn new() -> (r: TransformBuilder)
        ensures
            r == TransformBuilder::spec_new(),
    {
        TransformBuilder {
            local_scale: None,
            local_position: None,
            local_rotation: None,
            pre_rotation: None,
            post_rotation: None,
            rotation_offset: None,
            rotation_pivot: None,
            scaling_offset: None,
            scaling_pivot: None,
        }
    }

    /// Sets the desired scale.
    pub fn with_local_scale(self, scale: Vector3) -> (r: TransformBuilder)
        ensures
            r == (TransformBuilder { local_scale: Some(scale), ..self }),
    {
        TransformBuilder { local_scale: Some(scale), ..self }
    }

    /// Sets the desired position.
    pub fn with_local_position(self, position: Vector3) -> (r: TransformBuilder)
        ensures
            r == (TransformBuilder { local_position: Some(position), ..self }),
    {
        TransformBuilder { local_position: Some(position), ..self }
    }

    /// Sets the desired rotation.
    pub fn with_local_rotation(self, rotation: UnitQuaternion) -> (r: TransformBuilder)
        ensures
            r == (TransformBuilder { local_rotation: Some(rotation), ..self }),
    {
        TransformBuilder { local_rotation: Some(rotation), ..self }
    }

    /// Sets the desired pre-rotation.
    pub fn with_pre_rotation(self, rotation: UnitQuaternion) -> (r: TransformBuilder)
        ensures
            r == (TransformBuilder { pre_rotation: Some(rotation), ..self }),
    {
        TransformBuilder { pre_rotation: Some(rotation), ..self }
    }

    /// Sets the desired post-rotation.
    pub fn with_post_rotation(self, rotation: UnitQuaternion) -> (r: TransformBuilder)
        ensures
            r == (TransformBuilder { post_rotation: Some(rotation), ..self }),
    {
        TransformBuilder { post_rotation: Some(rotation), ..self }
    }

    /// Sets the desired rotation offset.
    pub fn with_rotation_offset(self, offset: Vector3) -> (r: TransformBuilder)
        ensures
            r == (TransformBuilder { rotation_offset: Some(offset), ..self }),
    {
        TransformBuilder { rotation_offset: Some(offset), ..self }
    }

    /// Sets the desired rotation pivot.
    pub fn with_rotation_pivot(self, pivot: Vector3) -> (r: TransformBuilder)
        ensures
            r == (TransformBuilder { rotation_pivot: Some(pivot), ..self }),
    {
        TransformBuilder { rotation_pivot: Some(pivot), ..self }
    }

    /// Sets the desired scaling offset.
    pub fn with_scaling_offset(self, offset: Vector3) -> (r: TransformBuilder)
        ensures
            r == (TransformBuilder { scaling_offset: Some(offset), ..self }),
    {
        TransformBuilder { scaling_offset: Some(offset), ..self }
    }

    /// Sets the desired scaling pivot.
    pub fn with_scaling_pivot(self, pivot: Vector3) -> (r: TransformBuilder)
        ensures
            r == (TransformBuilder { scaling_pivot: Some(pivot), ..self }),
    {
        TransformBuilder { scaling_pivot: Some(pivot), ..self }
    }

    /// The parameters the builder stands for, each unset one defaulted.
    pub open spec fn components(self) -> Components {
        Components {
            local_scale: match self.local_scale { Some(v) => v, None => Vector3::spec_new(ONE_BITS, ONE_BITS, ONE_BITS) },
            local_position: match self.local_position { Some(v) => v, None => Vector3::spec_new(0, 0, 0) },
            local_rotation: match self.local_rotation { Some(v) => v, None => UnitQuaternion::spec_identity() },
            pre_rotation: match self.pre_rotation { Some(v) => v, None => UnitQuaternion::spec_identity() },
            post_rotation: match self.post_rotation { Some(v) => v, None => UnitQuaternion::spec_identity() },
            rotation_offset: match self.rotation_offset { Some(v) => v, None => Vector3::spec_new(0, 0, 0) },
            rotation_pivot: match self.rotation_pivot { Some(v) => v, None => Vector3::spec_new(0, 0, 0) },
            scaling_offset: match self.scaling_offset { Some(v) => v, None => Vector3::spec_new(0, 0, 0) },
            scaling_pivot: match self.scaling_pivot { Some(v) => v, None => Vector3::spec_new(0, 0, 0) },
        }
    }

    /// Builds a dirty transform with the gathered parameters. Its inverse
    /// post-rotation comes from `invert`, as in `Transform::set_post_rotation`.
    pub fn build<F>(self, invert: F) -> (r: Transform)
        where
            F: Fn(UnitQuaternion) -> Option<Matrix3>,
        requires
            invert.requires((self.components().post_rotation,)),
        ensures
            r.wf(),
            exists|inv: Option<Matrix3>|
                #[trigger] invert.ensures((self.components().post_rotation,), inv)
                    && r@ == TransformState::fresh(self.components(), inverse_or_identity(inv)),
    {
        let local_scale = match self.local_scale {
            Some(v) => v,
            None => Vector3::ones(),
        };
        let local_position = match self.local_position {
            Some(v) => v,
            None => Vector3::zeros(),
        };
        let local_rotation = match self.local_rotation {
            Some(v) => v,
            None => UnitQuaternion::identity(),
        };
        let pre_rotation = match self.pre_rotation {
            Some(v) => v,
            None => UnitQuaternion::identity(),
        };
        let post_rotation = match self.post_rotation {
            Some(v) => v,
            None => UnitQuaternion::identity(),
        };
        let rotation_offset = match self.rotation_offset {
            Some(v) => v,
            None => Vector3::zeros(),
        };
        let rotation_pivot = match self.rotation_pivot {
            Some(v) => v,
            None => Vector3::zeros(),
        };
        let scaling_offset = match self.scaling_offset {
            Some(v) => v,
            None => Vector3::zeros(),
        };
        let scaling_pivot = match self.scaling_pivot {
            Some(v) => v,
            None => Vector3::zeros(),
        };
        let c = Components { local_scale, local_position, local_rotation, pre_rotation, post_rotation, rotation_offset, rotation_pivot, scaling_offset, scaling_pivot };
        Transform::from_components(c, invert)
    }
}

impl Default for TransformBuilder {
    fn default() -> (r: TransformBuilder)
        ensures
            r == TransformBuilder::spec_new(),
    {
        TransformBuilder::new()
    }
}

} // verus!
