//! Frame-loop core of a small real-time racing game: settings, frame pacing,
//! keyboard state, per-player controllers, and the per-frame orchestration that
//! turns window events and key state into an ordered list of render commands.
pub mod controller;
pub mod frame_limiter;
pub mod game;
pub mod input;
pub mod settings;

pub use controller::{Controller, ControllerLayout, ControllerView, KeyBindings};
pub use frame_limiter::{FrameLimiter, FrameLimiterView};
pub use game::{Command, Game, GameView, Projection, WindowEvent};
pub use input::{Key, KeyState};
pub use settings::GameSettings;
