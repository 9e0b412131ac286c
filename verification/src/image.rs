//! Image buffers: dense two-dimensional arrays of colours behind one
//! bounds-checked interface.

pub mod buffer_error;
pub mod default_image_buffer;
pub mod image_buffer;
pub mod ppm_converter;
pub mod u8_image_buffer;
