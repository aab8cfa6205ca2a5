//! The host side of a progressive ray tracer: scene data, the buffers and
//! per-frame parameters in the layout that the compute kernel reads, and the
//! decisions of the input controller and the render loop.

pub mod buffers;
pub mod input;
pub mod layout;
pub mod params;
pub mod render;
pub mod scalar;
pub mod scenes;
pub mod shapes;
pub mod targets;
pub mod vector;
