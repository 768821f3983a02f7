//! The decision logic of scaffolding a new Astropress project.

pub mod env;
pub mod features;
pub mod git;
pub mod manifest;
pub mod notes;
pub mod providers;
pub mod scaffold;
pub mod string_map;
pub mod text;
