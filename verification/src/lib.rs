//! Filename-driven image format conversion: a resolver that maps a filename
//! suffix to a supported raster format tag, an error taxonomy for the whole
//! conversion, and the driver decisions around the two codec calls.

pub mod driver;
pub mod error;
pub mod extension;
