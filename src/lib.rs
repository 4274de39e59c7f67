//! Live MJPEG streaming over HTTP: a frame codec, a single-slot relay from one
//! producer to many viewers, and the per-connection state machine that turns
//! relayed frames into `multipart/x-mixed-replace` wire bytes.
pub mod codec;
pub mod connection;
pub mod relay;
