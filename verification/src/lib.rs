//! Pure logic of the visual-novel generation pipeline: cleaning model
//! output, building prompts, checking template manifests and driving the
//! lint-and-repair loop.

pub mod generation;
pub mod pipeline;
pub mod renpy;
pub mod story;
pub mod template;
pub mod text;
