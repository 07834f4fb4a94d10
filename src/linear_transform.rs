use vstd::prelude::*;

verus! {

/// An object's pose together with the matrix composed from it, recomposed
/// lazily: every change of the pose marks the matrix stale, and only
/// `update_matrix` recomposes it.
///
/// `P` is the pose (translation, rotation, scale) and `M` the matrix type;
/// the composition itself is handed to `update_matrix` by the caller.
#[derive(Clone, Copy)]
pub struct LinearTransform<P, M> {
    pose: P,
    matrix: M,
    dirty: bool,
}

impl<P, M> LinearTransform<P, M> {
    /// The current pose.
    pub closed spec fn current_pose(self) -> P {
        self.pose
    }

    /// The matrix as last composed (stale while `dirty()` holds).
    pub closed spec fn cached_matrix(self) -> M {
        self.matrix
    }

    /// Whether the pose changed since the matrix was last composed.
    pub closed spec fn dirty(self) -> bool {
        self.dirty
    }

    /// What one call of `update_matrix` does, but for the value of the new
    /// matrix: the pose stays, the transform is clean afterwards, and a clean
    /// transform is left exactly as it was.
    pub open spec fn update_step(before: Self, after: Self) -> bool {
        &&& after.current_pose() == before.current_pose()
        &&& !after.dirty()
        &&& !before.dirty() ==> after == before
    }

    /// A clean transform at `pose`, its matrix composed from it by `compose`.
    pub fn new<F: Fn(&P) -> M>(pose: P, compose: &F) -> (r: Self)
        requires
            forall|p: &P| compose.requires((p,)),
        ensures
            r.current_pose() == pose,
            compose.ensures((&pose,), r.cached_matrix()),
            !r.dirty(),
    {
        let matrix = compose(&pose);
        LinearTransform { pose, matrix, dirty: false }
    }

    /// The current pose.
    pub fn pose(&self) -> (r: &P)
        ensures
            *r == self.current_pose(),
    {
        &self.pose
    }

    /// Replaces the pose and marks the matrix stale; the cached matrix itself
    /// is kept until the next `update_matrix`.
    pub fn set_pose(&mut self, pose: P)
        ensures
            final(self).current_pose() == pose,
            final(self).cached_matrix() == old(self).cached_matrix(),
            final(self).dirty(),
    {
        self.pose = pose;
        self.dirty = true;
    }

    /// Whether the pose changed since the matrix was last composed.
    pub fn needs_update(&self) -> (r: bool)
        ensures
            r == self.dirty(),
    {
        self.dirty
    }

    /// The cached matrix, without recomposition: it is current only after
    /// `update_matrix` has run since the last change of the pose.
    pub fn get_matrix(&self) -> (r: &M)
        ensures
            *r == self.cached_matrix(),
    {
        &self.matrix
    }

    /// Recomposes the matrix with `compose` if the pose changed since the
    /// last composition, and does nothing otherwise.
    pub fn update_matrix<F: Fn(&P) -> M>(&mut self, compose: &F)
        requires
            forall|p: &P| compose.requires((p,)),
        ensures
            Self::update_step(*old(self), *final(self)),
            old(self).dirty() ==> compose.ensures((&old(self).current_pose(),), final(self).cached_matrix()),
    {
        if self.dirty {
            self.matrix = compose(&self.pose);
            self.dirty = false;
        }
    }
}

/// Updating the matrix twice with no change of the pose in between is the
/// same as updating it once: the second update leaves the transform, and so
/// its matrix, exactly as the first left it, and both leave it clean.
pub proof fn lemma_update_matrix_idempotent<P, M>(
    t0: LinearTransform<P, M>,
    t1: LinearTransform<P, M>,
    t2: LinearTransform<P, M>,
)
    requires
        LinearTransform::update_step(t0, t1),
        LinearTransform::update_step(t1, t2),
    ensures
        t2 == t1,
        t2.cached_matrix() == t1.cached_matrix(),
        !t1.dirty(),
        !t2.dirty(),
{
}

} // verus!
