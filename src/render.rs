use vstd::prelude::*;

use crate::camera::Camera;
use crate::geometry::DrawCall;
use crate::linear_transform::LinearTransform;

verus! {

/// The matrix uniforms that the shader program exposes.
#[derive(Clone, Copy, Debug, PartialEq, Eq, Structural)]
pub enum Uniform {
    /// `modelMatrix`: each object's transform.
    Model,
    /// `viewMatrix`: the inverse of the camera's transform.
    View,
    /// `projectionMatrix`: the camera's projection.
    Projection,
}

/// Which of the three matrix uniforms the program has a location for.
#[derive(Clone, Copy, Debug, PartialEq, Eq, Structural)]
pub struct UniformLocations {
    pub model: bool,
    pub view: bool,
    pub projection: bool,
}

/// Why a draw pass stopped early.
#[derive(Clone, Copy, Debug, PartialEq, Eq, Structural)]
pub enum RenderError {
    /// The program has no location for this uniform.
    UniformNotFound(Uniform),
    /// The camera's matrix has no inverse, so there is no view matrix.
    SingularView,
}

/// One step of a draw pass, in the order the GPU receives them.
#[derive(Clone, Copy, Debug, PartialEq, Eq, Structural)]
pub enum Command {
    /// Clear the color target.
    Clear,
    /// Upload the view matrix.
    SetView,
    /// Upload the camera's projection matrix.
    SetProjection,
    /// Upload the matrix of object `i` as the model matrix.
    SetModel(usize),
    /// Bind the vertex array of object `i`.
    BindVertexArray(usize),
    /// Issue a draw call.
    Draw(DrawCall),
}

/// The commands of one draw pass and how the pass ended.
#[derive(Debug)]
pub struct FramePlan {
    pub commands: Vec<Command>,
    pub outcome: Result<(), RenderError>,
}

/// Per object, in list order: its model matrix, its vertex array, its draw call.
pub open spec fn object_commands(draws: Seq<DrawCall>) -> Seq<Command> {
    Seq::new(
        3 * draws.len(),
        |i: int|
            if i % 3 == 0 {
                Command::SetModel((i / 3) as usize)
            } else if i % 3 == 1 {
                Command::BindVertexArray((i / 3) as usize)
            } else {
                Command::Draw(draws[i / 3])
            },
    )
}

/// How a draw pass ends: the model uniform is looked up first, then the
/// camera's matrix is inverted, then the view and projection uniforms are
/// set; the first of these that fails ends the pass.
pub open spec fn frame_outcome(locations: UniformLocations, view_invertible: bool) -> Result<
    (),
    RenderError,
> {
    if !locations.model {
        Err(RenderError::UniformNotFound(Uniform::Model))
    } else if !view_invertible {
        Err(RenderError::SingularView)
    } else if !locations.view {
        Err(RenderError::UniformNotFound(Uniform::View))
    } else if !locations.projection {
        Err(RenderError::UniformNotFound(Uniform::Projection))
    } else {
        Ok(())
    }
}

/// The commands of a draw pass: the clear always comes first; what follows
/// stops where the pass fails.
pub open spec fn frame_commands(
    locations: UniformLocations,
    view_invertible: bool,
    draws: Seq<DrawCall>,
) -> Seq<Command> {
    if !locations.model || !view_invertible || !locations.view {
        seq![Command::Clear]
    } else if !locations.projection {
        seq![Command::Clear, Command::SetView]
    } else {
        seq![Command::Clear, Command::SetView, Command::SetProjection] + object_commands(draws)
    }
}

/// Plans one draw pass over objects whose draw calls are `draws`, in list
/// order, given which uniforms the program has and whether the camera's
/// matrix could be inverted.
pub fn plan_frame(locations: UniformLocations, view_invertible: bool, draws: &Vec<DrawCall>) -> (r:
    FramePlan)
    requires
        3 * draws@.len() + 3 <= usize::MAX,
    ensures
        r.commands@ == frame_commands(locations, view_invertible, draws@),
        r.outcome == frame_outcome(locations, view_invertible),
{
    let mut commands: Vec<Command> = Vec::new();
    commands.push(Command::Clear);
    if !locations.model {
        return FramePlan { commands, outcome: Err(RenderError::UniformNotFound(Uniform::Model)) };
    }
    if !view_invertible {
        return FramePlan { commands, outcome: Err(RenderError::SingularView) };
    }
    if !locations.view {
        return FramePlan { commands, outcome: Err(RenderError::UniformNotFound(Uniform::View)) };
    }
    commands.push(Command::SetView);
    if !locations.projection {
        return FramePlan {
            commands,
            outcome: Err(RenderError::UniformNotFound(Uniform::Projection)),
        };
    }
    commands.push(Command::SetProjection);
    let ghost head = commands@;
    let mut i: usize = 0;
    while i < draws.len()
        invariant
            i <= draws@.len(),
            3 * draws@.len() + 3 <= usize::MAX,
            head == seq![Command::Clear, Command::SetView, Command::SetProjection],
            commands@ == head + object_commands(draws@.take(i as int)),
        decreases draws@.len() - i,
    {
        commands.push(Command::SetModel(i));
        commands.push(Command::BindVertexArray(i));
        commands.push(Command::Draw(draws[i]));
        proof {
            let next = object_commands(draws@.take(i + 1));
            let prev = object_commands(draws@.take(i as int));
            assert forall|j: int| 0 <= j < 3 * i implies #[trigger] next[j] == prev[j] by {}
            assert forall|j: int| 3 * i <= j < 3 * i + 3 implies #[trigger] next[j] == commands@[j + 3] by {
                vstd::arithmetic::div_mod::lemma_fundamental_div_mod_converse(j, 3, i as int, j - 3 * i);
            }
            assert(commands@ =~= head + next);
        }
        i = i + 1;
    }
    assert(draws@.take(draws@.len() as int) =~= draws@);
    FramePlan { commands, outcome: Ok(()) }
}

/// Drives the draw passes: owns the camera and remembers when the last
/// pass ended (in milliseconds on the caller's clock).
pub struct Renderer<P, M> {
    camera: Camera<P, M>,
    last_render: Option<u64>,
}

impl<P, M> Renderer<P, M> {
    pub closed spec fn spec_camera(self) -> Camera<P, M> {
        self.camera
    }

    pub closed spec fn spec_last_render(self) -> Option<u64> {
        self.last_render
    }

    /// A renderer that has drawn no frame yet.
    pub fn new(camera: Camera<P, M>) -> (r: Self)
        ensures
            r.spec_camera() == camera,
            r.spec_last_render() is None,
    {
        Renderer { camera, last_render: None }
    }

    /// The camera.
    pub fn camera(&self) -> (r: &Camera<P, M>)
        ensures
            *r == self.spec_camera(),
    {
        &self.camera
    }

    /// The camera's transform, to move or turn the camera between frames;
    /// the projection stays as it is.
    pub fn camera_transform_mut(&mut self) -> (r: &mut LinearTransform<P, M>)
        ensures
            *r == old(self).spec_camera().spec_transform(),
            final(self).spec_camera().spec_transform() == *final(r),
            final(self).spec_camera().spec_projection() == old(self).spec_camera().spec_projection(),
            final(self).spec_last_render() == old(self).spec_last_render(),
    {
        self.camera.transform_mut()
    }

    /// When the last pass ended, if one did.
    pub fn last_render(&self) -> (r: Option<u64>)
        ensures
            r == self.spec_last_render(),
    {
        self.last_render
    }

    /// Starts a pass at time `now`: brings the camera's matrix up to date and
    /// returns the time since the last pass ended (zero for the first pass,
    /// and where the clock went back).
    pub fn begin_frame<F: Fn(&P) -> M>(&mut self, compose: &F, now: u64) -> (elapsed: u64)
        requires
            forall|p: &P| compose.requires((p,)),
        ensures
            elapsed == match old(self).spec_last_render() {
                Some(t) => if now >= t { (now - t) as u64 } else { 0 },
                None => 0,
            },
            LinearTransform::update_step(
                old(self).spec_camera().spec_transform(),
                final(self).spec_camera().spec_transform(),
            ),
            old(self).spec_camera().spec_transform().dirty() ==> compose.ensures(
                (&old(self).spec_camera().spec_transform().current_pose(),),
                final(self).spec_camera().spec_transform().cached_matrix(),
            ),
            final(self).spec_camera().spec_projection() == old(self).spec_camera().spec_projection(),
            final(self).spec_last_render() == old(self).spec_last_render(),
    {
        let elapsed = match self.last_render {
            Some(t) => now.saturating_sub(t),
            None => 0,
        };
        self.camera.transform_mut().update_matrix(compose);
        elapsed
    }

    /// Ends a pass at time `now`.
    pub fn end_frame(&mut self, now: u64)
        ensures
            final(self).spec_last_render() == Some(now),
            final(self).spec_camera() == old(self).spec_camera(),
    {
        self.last_render = Some(now);
    }
}

} // verus!
