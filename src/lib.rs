//! Step segmentation for a screen recording: a click-driven step counter, a
//! frame router that hands each step's frames to its own encoder worker, and
//! the encoder worker's message protocol. The threads, channels, capture
//! backend and platform encoders run around these decisions.
pub mod capture;
pub mod event_tracker;
pub mod frame;
pub mod router;
pub mod worker;
pub mod laws;
pub mod mouse_hook;
