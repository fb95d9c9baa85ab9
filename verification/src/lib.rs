//! Core of a windowed Game-of-Life demo: the simulation grid with its
//! TGA seed loader, the frame pacer, the event-loop decisions, and the
//! geometry builder that turns live cells into triangle vertices.
//!
//! Window creation, OpenGL rendering and the native event source live
//! outside this crate; they hand plain values in and take plain values out.

pub mod events;
pub mod life;
pub mod pacer;
pub mod render;
pub mod tga;
