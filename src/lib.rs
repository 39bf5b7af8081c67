//! Extraction of the first icon embedded in an executable and its conversion
//! into an RGBA raster.
//!
//! The operating-system calls (icon extraction, bitmap queries, the pixel
//! copy through a device context, handle release) are made by the host. This
//! library decides what happens between them: it validates the input, sizes
//! and describes the pixel request, checks and decodes the copied pixels, and
//! drives an extraction session that releases every acquired handle exactly
//! once on every path.
pub mod error;
pub mod geometry;
pub mod raster;
pub mod session;
pub mod validation;
