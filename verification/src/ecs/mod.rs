//! Objects, components and the scene that owns both.

pub mod component;
pub mod object;
pub mod scene;
