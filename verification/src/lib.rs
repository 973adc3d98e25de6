//! Decision core of a single-window renderer that draws one fixed, coloured
//! triangle every frame.
//!
//! The crate holds everything the renderer decides: the vertex layout and
//! data, the surface configuration and its resize rule, the fixed render
//! pipeline description, the start-up handshake with the GPU, the per-frame
//! state machine with its recovery policy, and the mapping from window events
//! to commands. The embedding program performs the commands (talking to the
//! window system and to the GPU) and reports back what happened.

pub mod events;
pub mod frame;
pub mod geometry;
pub mod pipeline;
pub mod session;
pub mod state;
pub mod surface;
