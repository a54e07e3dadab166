//! A set of scenes with one of them chosen.

use vstd::prelude::*;
use crate::camera::Camera;
use crate::scene::Scene;

verus! {

/// Scenes, the index of the one that is current, a camera, and the
/// platform's window as `window`.
#[derive(Debug)]
pub struct Context<H, E, U> {
    pub current_scene: usize,
    pub scenes: Vec<Scene<E, U>>,
    pub camera: Camera,
    pub window: H,
}

impl<H, E, U> Context<H, E, U> {
    /// Whether the index of the current scene names one of the scenes.
    pub open spec fn has_current(&self) -> bool {
        self.current_scene < self.scenes@.len()
    }

    /// Whether the index of the current scene names one of the scenes.
    pub fn is_valid(&self) -> (valid: bool)
        ensures
            valid == self.has_current(),
    {
        self.current_scene < self.scenes.len()
    }

    /// The current scene.
    pub fn current(&self) -> (scene: &Scene<E, U>)
        requires
            self.has_current(),
        ensures
            *scene == self.scenes@[self.current_scene as int],
    {
        &self.scenes[self.current_scene]
    }

    /// The current scene, to change it. Nothing else in the context changes.
    pub fn current_mut(&mut self) -> (scene: &mut Scene<E, U>)
        requires
            old(self).has_current(),
        ensures
            *scene == old(self).scenes@[old(self).current_scene as int],
            final(self).scenes@ == old(self).scenes@.update(
                old(self).current_scene as int,
                *final(scene),
            ),
            final(self).current_scene == old(self).current_scene,
            final(self).camera == old(self).camera,
            final(self).window == old(self).window,
    {
        &mut self.scenes[self.current_scene]
    }
}

} // verus!
