//! Host-side logic of a Vulkan compute runtime: dispatch geometry, CPU
//! reference kernels, a GLSL constant-folding pass and the error type.

pub mod bench;
pub mod cli;
pub mod context;
pub mod demos;
pub mod dispatcher;
pub mod error;
pub mod pipeline;
pub mod profiler;
pub mod shaderc;
