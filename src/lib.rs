//! Run-time core of a small real-time game: a layered scene model, a renderer
//! that turns a scene and the active screen into an ordered list of draw
//! commands, an input translator, the screen state machine and the frame loop's
//! decisions (pacing, one frame's work, a replayed session).

pub mod draw_system;
pub mod game_func;
pub mod game_state;
