//! Parameter/state model for the Xcope oscilloscope.

pub mod meta;
pub mod plain;
pub mod store;
pub mod types;

pub use meta::{param_count, param_steps, param_title, param_units};
pub use plain::{apply_param_plain, read_param_plain};
pub use store::{clamp_color_index, clamp_zoom, XcopeParams};
pub use types::{DisplayMode, GridSubdivision, ScopeMode, TimeWindow, XcopeUiState};
