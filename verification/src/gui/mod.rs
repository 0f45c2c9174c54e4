//! Editor layout, UI-action reducer and freeze handling.

pub mod freeze;
pub mod layout;
pub mod reducer;

pub use layout::{
    constrained_host_size, preferred_window_size, resolve_layout_geometry, LayoutGeometry, Size,
    SCOPE_SURFACE_KEY,
};
pub use reducer::{apply_ui_action, UiAction};
pub use freeze::GuiRuntime;
