//! Rasterisation of bitmaps into 720-dot monochrome label lines, and the
//! command protocol that drives a thermal label printer with them.
//!
//! * `render` turns an image into raster lines, with the steps of
//!   `imaging` and `gamma` on the buffers of `pixels`, packed by `raster`.
//! * `command` and `status` encode the printer's commands and decode its
//!   status records. `session` orders them into a print job without doing
//!   any I/O, and `device` runs a job against a printer that lives in
//!   memory.
//! * `intake`, `access`, `ratelimit`, `qr` and `coordinator` hold what a
//!   chat bot around the printer decides: what a message asks for, who may
//!   print and how often, and how a job that ran on a worker ended.

pub mod access;
pub mod command;
pub mod coordinator;
pub mod device;
pub mod error;
pub mod gamma;
pub mod imaging;
pub mod intake;
pub mod pixels;
pub mod qr;
pub mod raster;
pub mod ratelimit;
pub mod render;
pub mod session;
pub mod status;
pub mod text;
