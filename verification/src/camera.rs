//! The camera of a scene.

use vstd::prelude::*;
use crate::command::{Command, Uniform};
use crate::words::{Mat4, QuaternionWords, Vec3};

verus! {

/// The view of a scene: two matrices, an orientation and a position in the
/// world. This crate carries the camera from the scene to the driver; the
/// arithmetic that moves and turns it is done where numbers are computed.
#[derive(Clone, Copy, Debug, PartialEq, Eq)]
pub struct Camera {
    pub view: Mat4,
    pub projection: Mat4,
    pub orientation: QuaternionWords,
    pub position: Vec3,
}

impl Camera {
    /// The commands that hand the camera to the program in use: the view
    /// matrix, the projection matrix, then the orientation.
    pub open spec fn commands(self) -> Seq<Command> {
        seq![
            Command::UniformMatrix { uniform: Uniform::CamView, matrix: self.view },
            Command::UniformMatrix { uniform: Uniform::CamProjection, matrix: self.projection },
            Command::UniformRotation {
                uniform: Uniform::CamOrientation,
                quaternion: self.orientation,
            },
        ]
    }
}

} // verus!
