//! The integer side of a Monte Carlo sphere renderer: the plain-text pixel
//! image format, the order in which pixels are visited, the render settings,
//! the choice of the nearest hit among a scene's candidates, and the
//! integrator's per-bounce decisions.
pub mod config;
pub mod nearest;
pub mod path;
pub mod ppm;
pub mod scan;
