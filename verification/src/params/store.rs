//! Parameter storage and clamping rules.

use vstd::prelude::*;

use crate::constants::{
    CHANNEL_COLOR_COUNT, MAX_VISUAL_CHANNELS, ZOOM_MAX_BITS, ZOOM_MIN_BITS, ZOOM_X_DEFAULT_BITS,
};
use crate::ieee754::{f32_bits_is_finite, f32_finite, f32_sign_set, F32_SIGN_BIT};

use super::types::{DisplayMode, GridSubdivision, ScopeMode, TimeWindow, XcopeUiState};

verus! {

/// Zoom clamping on `f32` bit patterns.
///
/// A non-finite zoom falls back to the default `1.0`; a finite zoom is clamped
/// into `[0.25, 4.0]`. Negative values (including `-0.0`) lie below `0.25`;
/// for non-negative finite values the bit order is the numeric order.
pub open spec fn spec_clamp_zoom(zoom_bits: u32) -> u32 {
    if !f32_finite(zoom_bits) {
        ZOOM_X_DEFAULT_BITS
    } else if f32_sign_set(zoom_bits) || zoom_bits < ZOOM_MIN_BITS {
        ZOOM_MIN_BITS
    } else if zoom_bits > ZOOM_MAX_BITS {
        ZOOM_MAX_BITS
    } else {
        zoom_bits
    }
}

/// A zoom value that clamping leaves unchanged.
pub open spec fn zoom_in_range(zoom_bits: u32) -> bool {
    ZOOM_MIN_BITS <= zoom_bits <= ZOOM_MAX_BITS
}

/// Color clamping: indices past the palette read as its last slot.
pub open spec fn spec_clamp_color_index(color_index: u32) -> u32 {
    if color_index < CHANNEL_COLOR_COUNT - 1 {
        color_index
    } else {
        (CHANNEL_COLOR_COUNT - 1) as u32
    }
}

/// Clamping a zoom lands in `[0.25, 4.0]`, and clamping again changes nothing;
/// values already in range are kept.
pub proof fn lemma_clamp_zoom(zoom_bits: u32)
    ensures
        zoom_in_range(spec_clamp_zoom(zoom_bits)),
        spec_clamp_zoom(spec_clamp_zoom(zoom_bits)) == spec_clamp_zoom(zoom_bits),
        zoom_in_range(zoom_bits) ==> spec_clamp_zoom(zoom_bits) == zoom_bits,
{
}

/// Clamping a color lands in the palette, and clamping again changes nothing.
pub proof fn lemma_clamp_color_index(color_index: u32)
    ensures
        spec_clamp_color_index(color_index) < CHANNEL_COLOR_COUNT,
        spec_clamp_color_index(spec_clamp_color_index(color_index)) == spec_clamp_color_index(
            color_index,
        ),
        color_index < CHANNEL_COLOR_COUNT ==> spec_clamp_color_index(color_index) == color_index,
{
}

/// Clamp one zoom value (`f32` bits) into the supported range.
pub fn clamp_zoom(zoom_bits: u32) -> (clamped: u32)
    ensures
        clamped == spec_clamp_zoom(zoom_bits),
{
    if !f32_bits_is_finite(zoom_bits) {
        return ZOOM_X_DEFAULT_BITS;
    }
    if zoom_bits >= F32_SIGN_BIT || zoom_bits < ZOOM_MIN_BITS {
        ZOOM_MIN_BITS
    } else if zoom_bits > ZOOM_MAX_BITS {
        ZOOM_MAX_BITS
    } else {
        zoom_bits
    }
}

/// Clamp one channel color index into the supported palette range.
pub fn clamp_color_index(color_index: u32) -> (clamped: u32)
    ensures
        clamped == spec_clamp_color_index(color_index),
{
    if color_index < CHANNEL_COLOR_COUNT - 1 {
        color_index
    } else {
        CHANNEL_COLOR_COUNT - 1
    }
}

/// UI state with every zoom and color clamped, as the store keeps it.
pub open spec fn spec_normalize_ui_state(state: XcopeUiState) -> XcopeUiState {
    XcopeUiState {
        zoom_x_bits: spec_clamp_zoom(state.zoom_x_bits),
        zoom_y_bits: spec_clamp_zoom(state.zoom_y_bits),
        channel_color: [
            spec_clamp_color_index(state.channel_color[0]),
            spec_clamp_color_index(state.channel_color[1]),
        ],
        ..state
    }
}

/// Shared parameter store used by processor, controller and UI.
///
/// Every field is a raw cell: enumerations are kept as their persisted
/// indices, zoom factors as `f32` bits, colors as palette indices. Reading
/// the store decodes the cells; see [`XcopeParams::view`].
#[derive(Debug)]
pub struct XcopeParams {
    mode: u32,
    time_window: u32,
    grid_subdivision: u32,
    grid_triplet: bool,
    display_mode: u32,
    freeze: bool,
    zoom_x_bits: u32,
    zoom_y_bits: u32,
    channel_visible: [bool; MAX_VISUAL_CHANNELS],
    channel_color: [u32; MAX_VISUAL_CHANNELS],
}

impl View for XcopeParams {
    type V = XcopeUiState;

    /// The UI state the cells decode to.
    closed spec fn view(&self) -> XcopeUiState {
        XcopeUiState {
            mode: ScopeMode::spec_from_index(self.mode),
            time_window: TimeWindow::spec_from_index(self.time_window),
            grid_subdivision: GridSubdivision::spec_from_index(self.grid_subdivision),
            grid_triplet: self.grid_triplet,
            display_mode: DisplayMode::spec_from_index(self.display_mode),
            freeze: self.freeze,
            zoom_x_bits: spec_clamp_zoom(self.zoom_x_bits),
            zoom_y_bits: spec_clamp_zoom(self.zoom_y_bits),
            channel_visible: self.channel_visible,
            channel_color: [
                spec_clamp_color_index(self.channel_color[0]),
                spec_clamp_color_index(self.channel_color[1]),
            ],
        }
    }
}

impl Default for XcopeParams {
    fn default() -> (params: Self)
        ensures
            params@ == XcopeUiState::spec_default(),
    {
        Self::new()
    }
}

impl XcopeParams {
    /// The store's state is always normalized: zoom values and colors read
    /// back clamped.
    pub proof fn lemma_view_normalized(&self)
        ensures
            spec_normalize_ui_state(self@) == self@,
    {
        lemma_clamp_zoom(self.zoom_x_bits);
        lemma_clamp_zoom(self.zoom_y_bits);
        lemma_clamp_color_index(self.channel_color[0]);
        lemma_clamp_color_index(self.channel_color[1]);
        assert(spec_normalize_ui_state(self@).channel_color =~= self@.channel_color);
    }

    /// Create parameters initialized to V1 defaults.
    pub fn new() -> (params: Self)
        ensures
            params@ == XcopeUiState::spec_default(),
    {
        let defaults = XcopeUiState::default();
        XcopeParams {
            mode: defaults.mode.to_index(),
            time_window: defaults.time_window.to_index(),
            grid_subdivision: defaults.grid_subdivision.to_index(),
            grid_triplet: defaults.grid_triplet,
            display_mode: defaults.display_mode.to_index(),
            freeze: defaults.freeze,
            zoom_x_bits: defaults.zoom_x_bits,
            zoom_y_bits: defaults.zoom_y_bits,
            channel_visible: defaults.channel_visible,
            channel_color: defaults.channel_color,
        }
    }

    /// Return a full UI-state snapshot.
    pub fn snapshot(&self) -> (state: XcopeUiState)
        ensures
            state == self@,
    {
        let channel_visible = self.channel_visible;
        let channel_color = [
            clamp_color_index(self.channel_color[0]),
            clamp_color_index(self.channel_color[1]),
        ];
        XcopeUiState {
            mode: ScopeMode::from_index(self.mode),
            time_window: TimeWindow::from_index(self.time_window),
            grid_subdivision: GridSubdivision::from_index(self.grid_subdivision),
            grid_triplet: self.grid_triplet,
            display_mode: DisplayMode::from_index(self.display_mode),
            freeze: self.freeze,
            zoom_x_bits: clamp_zoom(self.zoom_x_bits),
            zoom_y_bits: clamp_zoom(self.zoom_y_bits),
            channel_visible,
            channel_color,
        }
    }

    /// Overwrite all persisted state fields.
    pub fn apply_snapshot(&mut self, state: &XcopeUiState)
        ensures
            final(self)@ == spec_normalize_ui_state(*state),
    {
        self.mode = state.mode.to_index();
        self.time_window = state.time_window.to_index();
        self.grid_subdivision = state.grid_subdivision.to_index();
        self.grid_triplet = state.grid_triplet;
        self.display_mode = state.display_mode.to_index();
        self.freeze = state.freeze;
        self.zoom_x_bits = clamp_zoom(state.zoom_x_bits);
        self.zoom_y_bits = clamp_zoom(state.zoom_y_bits);
        self.channel_visible = state.channel_visible;
        self.channel_color = [
            clamp_color_index(state.channel_color[0]),
            clamp_color_index(state.channel_color[1]),
        ];
        proof {
            lemma_clamp_zoom(state.zoom_x_bits);
            lemma_clamp_zoom(state.zoom_y_bits);
            lemma_clamp_color_index(state.channel_color[0]);
            lemma_clamp_color_index(state.channel_color[1]);
            assert(self@.channel_color =~= spec_normalize_ui_state(*state).channel_color);
        }
    }

    /// Set mode.
    pub fn set_mode(&mut self, mode: ScopeMode)
        ensures
            final(self)@ == (XcopeUiState { mode, ..old(self)@ }),
    {
        self.mode = mode.to_index();
    }

    /// Set time window.
    pub fn set_time_window(&mut self, window: TimeWindow)
        ensures
            final(self)@ == (XcopeUiState { time_window: window, ..old(self)@ }),
    {
        self.time_window = window.to_index();
    }

    /// Set grid subdivision.
    pub fn set_grid_subdivision(&mut self, subdivision: GridSubdivision)
        ensures
            final(self)@ == (XcopeUiState { grid_subdivision: subdivision, ..old(self)@ }),
    {
        self.grid_subdivision = subdivision.to_index();
    }

    /// Set triplet toggle.
    pub fn set_grid_triplet(&mut self, enabled: bool)
        ensures
            final(self)@ == (XcopeUiState { grid_triplet: enabled, ..old(self)@ }),
    {
        self.grid_triplet = enabled;
    }

    /// Set display mode.
    pub fn set_display_mode(&mut self, mode: DisplayMode)
        ensures
            final(self)@ == (XcopeUiState { display_mode: mode, ..old(self)@ }),
    {
        self.display_mode = mode.to_index();
    }

    /// Set freeze state.
    pub fn set_freeze(&mut self, freeze: bool)
        ensures
            final(self)@ == (XcopeUiState { freeze, ..old(self)@ }),
    {
        self.freeze = freeze;
    }

    /// Set horizontal zoom (`f32` bits); the stored value is clamped.
    pub fn set_zoom_x(&mut self, zoom_bits: u32)
        ensures
            final(self)@ == (XcopeUiState { zoom_x_bits: spec_clamp_zoom(zoom_bits), ..old(self)@ }),
    {
        self.zoom_x_bits = clamp_zoom(zoom_bits);
        proof {
            lemma_clamp_zoom(zoom_bits);
        }
    }

    /// Set vertical zoom (`f32` bits); the stored value is clamped.
    pub fn set_zoom_y(&mut self, zoom_bits: u32)
        ensures
            final(self)@ == (XcopeUiState { zoom_y_bits: spec_clamp_zoom(zoom_bits), ..old(self)@ }),
    {
        self.zoom_y_bits = clamp_zoom(zoom_bits);
        proof {
            lemma_clamp_zoom(zoom_bits);
        }
    }

    /// Set per-channel visibility; channels past the visual range are ignored.
    pub fn set_channel_visible(&mut self, channel_index: usize, visible: bool)
        ensures
            channel_index < MAX_VISUAL_CHANNELS ==> final(self)@ == old(
                self,
            )@.with_channel_visible(channel_index as int, visible),
            channel_index >= MAX_VISUAL_CHANNELS ==> final(self)@ == old(self)@,
    {
        if channel_index < MAX_VISUAL_CHANNELS {
            self.channel_visible[channel_index] = visible;
            proof {
                assert(self.channel_visible =~= old(self)@.with_channel_visible(
                    channel_index as int,
                    visible,
                ).channel_visible);
            }
        }
    }

    /// Set per-channel color index (clamped to the palette); channels past
    /// the visual range are ignored.
    pub fn set_channel_color(&mut self, channel_index: usize, color_index: u32)
        ensures
            channel_index < MAX_VISUAL_CHANNELS ==> final(self)@ == old(
                self,
            )@.with_channel_color(channel_index as int, spec_clamp_color_index(color_index)),
            channel_index >= MAX_VISUAL_CHANNELS ==> final(self)@ == old(self)@,
    {
        if channel_index < MAX_VISUAL_CHANNELS {
            self.channel_color[channel_index] = clamp_color_index(color_index);
            proof {
                lemma_clamp_color_index(color_index);
                assert(self@.channel_color =~= old(self)@.with_channel_color(
                    channel_index as int,
                    spec_clamp_color_index(color_index),
                ).channel_color);
            }
        }
    }
}

} // verus!
