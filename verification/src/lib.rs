//! QR code generation pipeline: a typed options model, a symbol encoder that
//! delegates matrix construction to the `qrcode` crate, a renderer that turns
//! a module matrix into a vector document or a raster image, and an output
//! dispatcher that serializes the rendered artifact to bytes.

pub mod options;
pub mod matrix;
pub mod engine;
pub mod raster;
pub mod vector;
pub mod dispatch;
