//! A verified model of a real-time 3D rendering layer: shader reflection and
//! byte-exact constant-buffer packing, materials with a byte-addressable
//! uniform interface, deferred command recording, render targets and
//! pipelines, a multi-pass scene renderer, and the environment-map baking
//! dispatch pipeline used for image-based lighting.
//!
//! GPU device objects themselves (buffers, views, compiled shaders) are
//! outside this library; they are represented by plain handles and
//! descriptor values, and every GPU command is recorded as data so that the
//! exact command stream a frame produces is stated in contracts.

pub mod shader_types;
pub mod shader_uniform;
pub mod shader_resource;
pub mod scan;
pub mod tokens;
pub mod reflect;
pub mod states;
pub mod shader;
pub mod material;
pub mod texture;
pub mod render_target;
pub mod environment;
pub mod pipeline;
pub mod mesh;
pub mod shader_library;
pub mod buffers;
pub mod command;
pub mod renderer;
pub mod scene_renderer;
pub mod events;
