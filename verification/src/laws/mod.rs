//! What the functions of the library do, stated of what goes into them and what comes out.

pub mod application;
pub mod background;
pub mod camera;
pub mod cubemap;
pub mod frame;
pub mod gui;
pub mod hdr;
pub mod panels;
pub mod paths;
pub mod profiler;
pub mod screen;
pub mod startup;
