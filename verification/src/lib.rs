//! Image effects applied through plugins: the pixel operations of the mirror
//! and grayscale plugins, their parameters, the plugin catalogue and the
//! decisions taken while a host loads and calls a plugin library.

pub mod grayscale;
pub mod imaging;
pub mod loader;
pub mod mirror;
pub mod params;
pub mod plugin;
pub mod raster;
