//! What the renderer keeps between frames, apart from handles to the
//! device: the size of its surface, its scenes, and which of them is shown.

use crate::ecs::scene::Scene;
use crate::frame::{draw_scene, frame_steps, Step};
use vstd::prelude::*;

verus! {

/// Why no image could be had from the surface.
#[derive(Clone, Copy, Debug, PartialEq, Eq)]
pub enum SurfaceError {
    /// Getting the next image took too long.
    Timeout,
    /// The surface has changed under the swap chain.
    Outdated,
    /// The swap chain is gone.
    Lost,
    /// No memory is left for a new frame.
    OutOfMemory,
}

/// What the event loop does after a frame failed.
#[derive(Clone, Copy, Debug, PartialEq, Eq)]
pub enum Recovery {
    /// Configure the surface again at its present size and go on: the next
    /// frame is the new try.
    Reconfigure,
    /// Leave the event loop.
    Exit,
}

/// The way on after a surface error. Want of memory ends the program.
/// From anything else the renderer recovers: the surface is configured
/// anew, and the next frame tries again.
pub open spec fn recovery(error: SurfaceError) -> Recovery {
    match error {
        SurfaceError::OutOfMemory => Recovery::Exit,
        SurfaceError::Lost | SurfaceError::Outdated | SurfaceError::Timeout => {
            Recovery::Reconfigure
        },
    }
}

/// Decides how the event loop goes on after a surface error.
pub fn recover(error: SurfaceError) -> (way: Recovery)
    ensures
        way == recovery(error),
{
    match error {
        SurfaceError::OutOfMemory => Recovery::Exit,
        _ => Recovery::Reconfigure,
    }
}

/// The renderer's own state.
pub struct State {
    /// Width of the surface in pixels.
    pub width: u32,
    /// Height of the surface in pixels.
    pub height: u32,
    pub scenes: Vec<Scene>,
    /// Position in `scenes` of the scene that frames are drawn from.
    pub active_scene_index: usize,
}

impl State {
    /// Whether one of the scenes is the active one.
    pub open spec fn has_active_scene(&self) -> bool {
        self.active_scene_index < self.scenes@.len()
    }

    /// The state at start-up: a surface of the given size and one empty
    /// scene, which is active.
    pub fn new(width: u32, height: u32) -> (state: Self)
        ensures
            state.width == width,
            state.height == height,
            state.scenes@.len() == 1,
            state.active_scene_index == 0,
            state.scenes@[0]@.objects.len() == 0,
            state.scenes@[0]@.components.len() == 0,
    {
        let mut scenes: Vec<Scene> = Vec::new();
        scenes.push(Scene::new());
        Self { width, height, scenes, active_scene_index: 0 }
    }

    /// Takes a new size of the surface. A size with no pixels in it is
    /// passed over and nothing changes; any other becomes the size of the
    /// surface. The answer says whether the surface, and what depends on
    /// its size, has to be set up again before the next frame.
    pub fn resize(&mut self, new_width: u32, new_height: u32) -> (reconfigure: bool)
        ensures
            reconfigure == (new_width > 0 && new_height > 0),
            reconfigure ==> final(self).width == new_width && final(self).height == new_height,
            !reconfigure ==> final(self).width == old(self).width && final(self).height == old(
                self,
            ).height,
            final(self).scenes == old(self).scenes,
            final(self).active_scene_index == old(self).active_scene_index,
    {
        if new_width > 0 && new_height > 0 {
            self.width = new_width;
            self.height = new_height;
            true
        } else {
            false
        }
    }

    /// The scene that frames are drawn from.
    pub fn get_active_scene(&self) -> (scene: &Scene)
        requires
            self.has_active_scene(),
        ensures
            *scene == self.scenes@[self.active_scene_index as int],
    {
        &self.scenes[self.active_scene_index]
    }

    /// The steps of one frame of the active scene.
    pub fn render(&self) -> (steps: Vec<Step>)
        requires
            self.has_active_scene(),
        ensures
            steps@ == frame_steps(self.scenes@[self.active_scene_index as int]@),
            self.scenes@[self.active_scene_index as int]@.wf(),
    {
        draw_scene(self.get_active_scene())
    }
}

} // verus!
