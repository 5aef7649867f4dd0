//! Core of a small real-time scene renderer: the scene catalogue, the per-frame
//! draw planning (culling decisions, material and texture resolution), input
//! event queries, and the relational loader's query logic.
//!
//! Floating-point geometry (camera, frustum planes, transforms) is carried by the
//! embedding application through the generic payloads of `Mesh` and `Material`;
//! the library decides what is drawn and with which resources.

mod errors;
pub mod text;
pub mod scene;
pub mod renderer;
pub mod input;
pub mod shader;
pub mod dbloader;

