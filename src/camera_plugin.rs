use vstd::prelude::*;

use crate::surface::ImageHandle;

verus! {

/// Registers the main game camera.
#[derive(Clone, Copy, Debug, PartialEq, Eq, Structural)]
pub struct CameraPlugin;

/// The two render layers, one per camera.
#[derive(Clone, Copy, Debug, PartialEq, Eq, Structural)]
pub enum CameraLayers {
    Background,
    Game,
}

impl CameraLayers {
    pub open spec fn spec_index(self) -> usize {
        match self {
            CameraLayers::Background => 0,
            CameraLayers::Game => 1,
        }
    }

    /// Index of the render layer; also the camera's sort order.
    pub fn index(&self) -> (r: usize)
        ensures
            r == self.spec_index(),
    {
        match self {
            CameraLayers::Background => 0,
            CameraLayers::Game => 1,
        }
    }
}

/// Where a camera's output goes.
#[derive(Clone, Copy, Debug, PartialEq, Eq, Structural)]
pub enum CameraTarget {
    Window,
    Image(ImageHandle),
}

/// The settings a camera is spawned with.
#[derive(Clone, Copy, Debug, PartialEq, Eq, Structural)]
pub struct CameraConfig {
    /// Cameras render in increasing order.
    pub order: usize,
    pub target: CameraTarget,
    /// Cleared to all channels zero before drawing.
    pub clear_transparent: bool,
    pub hdr: bool,
    /// The one render layer the camera sees.
    pub layer: CameraLayers,
}

/// The main game camera: renders the game layer, and only it, to the window,
/// after the background camera.
pub open spec fn spec_game_camera_config() -> CameraConfig {
    CameraConfig {
        order: CameraLayers::Game.spec_index(),
        target: CameraTarget::Window,
        clear_transparent: true,
        hdr: false,
        layer: CameraLayers::Game,
    }
}

impl CameraPlugin {
    /// Settings of the main game camera that this plugin spawns.
    pub fn game_camera_config(&self) -> (r: CameraConfig)
        ensures
            r == spec_game_camera_config(),
    {
        CameraConfig {
            order: CameraLayers::Game.index(),
            target: CameraTarget::Window,
            clear_transparent: true,
            hdr: false,
            layer: CameraLayers::Game,
        }
    }
}

} // verus!
