//! Resource and frame management core of a small 2D rendering layer.

pub mod allocator;
pub mod canvas;
pub mod catalog;
pub mod database;
pub mod error;
pub mod font;
pub mod frame;
pub mod geometry;
pub mod gpu;
pub mod hotbuffer;
pub mod input;
pub mod io_controller;
pub mod json;
pub mod outside;
pub mod particle;
pub mod particle_json;
pub mod pipeline;
pub mod pool;
pub mod renderer2d;
pub mod resource_manager;
pub mod timer;
pub mod types;
