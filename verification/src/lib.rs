//! Verified core of a small GUI toolkit: input events and key tables, event
//! dispatch decisions, editor history, pipeline registry and buffer layouts.
pub mod event;
pub mod winit_impl;
pub mod sdl2_impl;
pub mod history;
pub mod editor;
pub mod counter;
pub mod closures;
pub mod shape;
pub mod pipeline;
pub mod gl;
pub mod texture;
pub mod input;
pub mod container;
pub mod render_type;
