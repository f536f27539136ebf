//! A forward physically-based render pass.
//!
//! The library turns a frame's scene description — entities carrying mesh
//! handles, materials, world transforms, lights, skeletal joint data and a
//! transparency marker — into an ordered sequence of fully bound GPU draw
//! calls, using a compiled effect whose vertex-buffer layout, uniform slots
//! and texture slots are fixed at pass-construction time.
//!
//! Matrix and colour data are carried as raw 32-bit patterns: the pass
//! selects and forwards them but never does arithmetic on them, so their
//! numeric interpretation stays with the GPU and the math library.

pub mod camera;
pub mod draw;
pub mod effect;
pub mod lights;
pub mod pass;
pub mod scene;
pub mod types;
pub mod vertex;
