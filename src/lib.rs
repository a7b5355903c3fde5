//! Host-side logic of a stencil-masked planar mirror renderer: the fixed
//! configuration of its five GPU pipelines, the per-frame pass sequence with
//! its attachment load/store contract, and the surface and input state that
//! decide when and how a frame is drawn.
pub mod pipeline;
pub mod frame;
pub mod camera;
pub mod depth_stencil;
pub mod vertex;
pub mod state;
