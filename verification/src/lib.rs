//! A verified frame interchange pipeline for raster image data.
//!
//! A *frame record* carries a packed-RGB pixel buffer together with its
//! declared dimensions and optional identity and provenance strings.
//! Frames travel between a source loader (decode an external image into a
//! frame), a viewer (display a live stream of frames), and a sink (persist
//! frames to files).  The shared, verified core is:
//!
//! - the buffer validator every consumer applies before treating bytes as
//!   pixels ([`frame`]),
//! - the per-line record-stream handling with optional passthrough
//!   ([`stream`]),
//! - the single-slot coalescing mailbox between producer and consumer
//!   ([`coalesce`]),
//! - the render-loop framebuffer state machine ([`render`]),
//! - the one-shot source-loader pipeline ([`loader`]) and its target-size
//!   argument ([`dims`]),
//! - the file sink's frame encoding ([`sink`]),
//! - the error taxonomy and its exit-code and verbosity rules ([`report`]).
//!
//! Decoding, resampling and re-encoding themselves belong to the external
//! image codec, reached through the trusted boundary in [`imageio`].

pub mod coalesce;
pub mod dims;
pub mod frame;
pub mod imageio;
pub mod loader;
pub mod render;
pub mod report;
pub mod sink;
pub mod stream;
