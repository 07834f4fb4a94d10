use vstd::prelude::*;

use crate::linear_transform::LinearTransform;

verus! {

/// A camera: a projection fixed when the camera is made, and a transform
/// for its pose (pose `P`, matrix `M`).
pub struct Camera<P, M> {
    projection: M,
    transform: LinearTransform<P, M>,
}

impl<P, M> Camera<P, M> {
    /// The projection matrix.
    pub closed spec fn spec_projection(self) -> M {
        self.projection
    }

    /// The camera's transform.
    pub closed spec fn spec_transform(self) -> LinearTransform<P, M> {
        self.transform
    }

    /// A camera with the given projection and pose.
    pub fn new(projection: M, transform: LinearTransform<P, M>) -> (r: Self)
        ensures
            r.spec_projection() == projection,
            r.spec_transform() == transform,
    {
        Camera { projection, transform }
    }

    /// The projection matrix, which no operation changes.
    pub fn get_projection_matrix(&self) -> (r: &M)
        ensures
            *r == self.spec_projection(),
    {
        &self.projection
    }

    /// The camera's transform.
    pub fn transform(&self) -> (r: &LinearTransform<P, M>)
        ensures
            *r == self.spec_transform(),
    {
        &self.transform
    }

    /// The camera's transform, to move or turn the camera; the projection
    /// stays as it is.
    pub fn transform_mut(&mut self) -> (r: &mut LinearTransform<P, M>)
        ensures
            *r == old(self).spec_transform(),
            final(self).spec_transform() == *final(r),
            final(self).spec_projection() == old(self).spec_projection(),
    {
        &mut self.transform
    }
}

} // verus!
