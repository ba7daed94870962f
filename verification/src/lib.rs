//! The scene model of a small real-time renderer, and the rules by which a
//! frame is drawn from it.

pub mod ecs;
pub mod frame;
pub mod layout;
pub mod shader;
pub mod state;
pub mod vertex;
