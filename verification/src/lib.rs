//! Renders a declarative shell-setup configuration (modules, exports, PATH
//! entries, aliases, guarded tool hooks, plugin-manager integration) into a
//! shell initialization script for one of two dialects, zsh or fish.
//!
//! The configuration model lives in [`model`]; the generator, together with
//! the specification of exactly what text it produces, lives in [`render`];
//! the general ordering and shape guarantees of the output are proved in
//! [`laws`].

pub mod model;
pub mod render;
pub mod laws;
