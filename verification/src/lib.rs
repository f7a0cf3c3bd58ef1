//! Verified core of a small real-time rendering demo.
//!
//! The library models the data a renderer feeds to the GPU (vertex
//! attributes and their semantics, the hardcoded demo meshes, the
//! column-major matrix layout handed to shader uniforms, and the
//! window-event policy of the frame loop) and proves exact contracts
//! about each. Floating-point scaling, windowing and the GPU calls
//! themselves live outside the library, in the application shell.

pub mod events;
pub mod rendering;
pub mod shapes;
pub mod utils;
