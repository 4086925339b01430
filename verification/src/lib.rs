//! The decision-making core of a facade over a native GLSL shader translator.
//!
//! Nothing in this crate touches the native engine. Each operation of the
//! facade is split where it meets the engine: one function fixes what is
//! handed to the engine, another takes what the engine answered and decides
//! what the caller is told. The embedding program performs the native calls
//! in between.
pub mod shaders;
