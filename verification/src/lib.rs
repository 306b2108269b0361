//! Verified core of an SDF (signed distance field) modeler: the scene tree,
//! its builders, and the generator that turns a scene into WGSL shader code.
pub mod float_bits;
pub mod sdf_ast;
pub mod code;
pub mod text;
pub mod wgsl_gen;
pub mod tab;
pub mod laws;
pub mod balance;
