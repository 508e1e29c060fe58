//! The decision-making core of an interactive fluid renderer.

pub mod application;
pub mod background;
pub mod camera;
pub mod cubemap_loader;
pub mod events;
pub mod frame;
pub mod gpu;
pub mod gui;
pub mod hdr;
pub mod input;
pub mod laws;
pub mod paths;
pub mod screen;
pub mod simulation;
mod square;
pub mod startup;
