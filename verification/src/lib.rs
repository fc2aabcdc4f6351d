//! Core of a media streaming pipeline framework: a typed graph of
//! interchangeable processing elements that exchange packets and decoded
//! frames for video, audio, and subtitle streams under a shared
//! play/pause lifecycle.
//!
//! - [`format`] holds the descriptors for raw frame shapes and compressed
//!   encodings, including the open vendor extension point.
//! - [`source`] holds the element capability model: the base [`source::Element`]
//!   trait, the per-kind source/sink/decoder contracts, and the packet and
//!   frame data that flows between them.
//! - [`pipline`] holds the graph builder with link validation, the shared
//!   lifecycle state machine, and the per-kind duplex frame transports.
//! - [`image`] holds the resize filter element, an element that is both a
//!   video sink and a video source.

pub mod error;
pub mod format;
pub mod image;
pub mod pipline;
pub mod source;
