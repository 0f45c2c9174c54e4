//! Scope capture, window selection and render-sampling helpers.

pub mod capture_buffer;
pub mod palette;
pub mod render_sampling;
pub mod ring_math;

pub use capture_buffer::{SampleFrame, ScopeCaptureBuffer, ScopeFrame};
