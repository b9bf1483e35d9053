//! The vertex array object (VAO) cache of an OpenGL wrapper, and the decisions it makes
//! about which OpenGL commands to issue when vertex sources are bound for a draw call.
//!
//! The library never calls OpenGL itself: every command it decides on is appended to
//! `CommandContext::commands`, in order, for the caller to execute.

pub mod glenum;
pub mod vertex;
pub mod program;
pub mod context;
pub mod vertex_array_object;
pub mod laws;
pub mod type_laws;
