//! Safe, verified building blocks of an SDL3 binding: colors, geometry,
//! pixel and GPU enumerations with their SDL codes, flag sets, owned buffers
//! and error values.

mod bits;
pub mod boxed;
pub mod color;
pub mod decimal;
pub mod display;
pub mod error;
pub mod event;
pub mod fs;
pub mod gpu;
pub mod init;
pub mod keyboard;
pub mod log;
pub mod msgbox;
pub mod pixels;
pub mod rect;
