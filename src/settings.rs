use vstd::prelude::*;

verus! {

/// Window and pacing configuration of a game session.
#[derive(Clone, Copy, Debug, PartialEq, Eq, Structural)]
pub struct GameSettings {
    pub is_fullscreen: bool,
    pub width: u32,
    pub height: u32,
    pub fps: u32,
}

impl Default for GameSettings {
    /// A 640x480 window at 60 frames per second.
    fn default() -> (r: GameSettings)
        ensures
            !r.is_fullscreen,
            r.width == 640,
            r.height == 480,
            r.fps == 60,
    {
        GameSettings { is_fullscreen: false, width: 640, height: 480, fps: 60 }
    }
}

} // verus!
