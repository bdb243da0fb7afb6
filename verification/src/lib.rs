//! Verified core of an interactive ray tracer: parsing of the values typed into
//! the user interface, the scene's collections of cameras, lights and meshes, and
//! the bookkeeping of mesh loading. The floating-point geometry, the rendering and
//! the window live in the application around this library.

pub mod errors;
pub mod select_input;
pub mod cameras;
pub mod lights;
pub mod polygon_meshes;
pub mod file_reader;
pub mod move_input;
pub mod camera_input;
pub mod base_command;
pub mod light_commands;
pub mod object_light_properties_input;
pub mod object_load_input;
pub mod texture;
pub mod ray_tracer;
