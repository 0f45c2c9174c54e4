//! Enumerated parameter types and the UI-state snapshot.

use vstd::prelude::*;

use vstd::std_specs::cmp::PartialEqSpecImpl;

use crate::constants::{MAX_VISUAL_CHANNELS, ZOOM_X_DEFAULT_BITS, ZOOM_Y_DEFAULT_BITS};
use crate::ieee754::{f32_bits_ieee_eq, f32_ieee_eq};

verus! {

/// Oscilloscope runtime mode.
#[derive(Clone, Copy, Debug, PartialEq, Eq, Structural)]
pub enum ScopeMode {
    /// Continuous scrolling, independent of host tempo.
    FreeRunning,
    /// Host-tempo aligned display window.
    TempoLocked,
}

impl ScopeMode {
    /// Persisted index of a mode.
    pub open spec fn spec_to_index(self) -> u32 {
        match self {
            ScopeMode::FreeRunning => 0,
            ScopeMode::TempoLocked => 1,
        }
    }

    /// Mode stored under an index; unknown indices read as free-running.
    pub open spec fn spec_from_index(value: u32) -> Self {
        if value == 1 {
            ScopeMode::TempoLocked
        } else {
            ScopeMode::FreeRunning
        }
    }

    /// Return a compact persisted representation.
    pub fn to_index(self) -> (index: u32)
        ensures
            index == self.spec_to_index(),
    {
        match self {
            ScopeMode::FreeRunning => 0,
            ScopeMode::TempoLocked => 1,
        }
    }

    /// Resolve one mode from its persisted representation.
    pub fn from_index(value: u32) -> (mode: Self)
        ensures
            mode == Self::spec_from_index(value),
    {
        match value {
            1 => ScopeMode::TempoLocked,
            _ => ScopeMode::FreeRunning,
        }
    }
}

/// Visible musical window length.
#[derive(Clone, Copy, Debug, PartialEq, Eq, Structural)]
pub enum TimeWindow {
    /// One beat view.
    OneBeat,
    /// One bar view.
    OneBar,
    /// Two bars view.
    TwoBars,
    /// Four bars view.
    FourBars,
}

impl TimeWindow {
    /// Persisted index of a window.
    pub open spec fn spec_to_index(self) -> u32 {
        match self {
            TimeWindow::OneBeat => 0,
            TimeWindow::OneBar => 1,
            TimeWindow::TwoBars => 2,
            TimeWindow::FourBars => 3,
        }
    }

    /// Window stored under an index; unknown indices read as one bar.
    pub open spec fn spec_from_index(value: u32) -> Self {
        if value == 0 {
            TimeWindow::OneBeat
        } else if value == 2 {
            TimeWindow::TwoBars
        } else if value == 3 {
            TimeWindow::FourBars
        } else {
            TimeWindow::OneBar
        }
    }

    /// Return a compact persisted representation.
    pub fn to_index(self) -> (index: u32)
        ensures
            index == self.spec_to_index(),
    {
        match self {
            TimeWindow::OneBeat => 0,
            TimeWindow::OneBar => 1,
            TimeWindow::TwoBars => 2,
            TimeWindow::FourBars => 3,
        }
    }

    /// Resolve one window from its persisted representation.
    pub fn from_index(value: u32) -> (window: Self)
        ensures
            window == Self::spec_from_index(value),
    {
        match value {
            0 => TimeWindow::OneBeat,
            2 => TimeWindow::TwoBars,
            3 => TimeWindow::FourBars,
            _ => TimeWindow::OneBar,
        }
    }
}

/// Grid subdivision density.
#[derive(Clone, Copy, Debug, PartialEq, Eq, Structural)]
pub enum GridSubdivision {
    /// Eighth-note subdivision.
    Div8,
    /// Sixteenth-note subdivision.
    Div16,
    /// Thirty-second-note subdivision.
    Div32,
}

impl GridSubdivision {
    /// Persisted index of a subdivision.
    pub open spec fn spec_to_index(self) -> u32 {
        match self {
            GridSubdivision::Div8 => 0,
            GridSubdivision::Div16 => 1,
            GridSubdivision::Div32 => 2,
        }
    }

    /// Subdivision stored under an index; unknown indices read as sixteenths.
    pub open spec fn spec_from_index(value: u32) -> Self {
        if value == 0 {
            GridSubdivision::Div8
        } else if value == 2 {
            GridSubdivision::Div32
        } else {
            GridSubdivision::Div16
        }
    }

    /// Return a compact persisted representation.
    pub fn to_index(self) -> (index: u32)
        ensures
            index == self.spec_to_index(),
    {
        match self {
            GridSubdivision::Div8 => 0,
            GridSubdivision::Div16 => 1,
            GridSubdivision::Div32 => 2,
        }
    }

    /// Resolve one subdivision from its persisted representation.
    pub fn from_index(value: u32) -> (subdivision: Self)
        ensures
            subdivision == Self::spec_from_index(value),
    {
        match value {
            0 => GridSubdivision::Div8,
            2 => GridSubdivision::Div32,
            _ => GridSubdivision::Div16,
        }
    }
}

/// Channel arrangement mode in the scope display.
#[derive(Clone, Copy, Debug, PartialEq, Eq, Structural)]
pub enum DisplayMode {
    /// Render visible channels overlaid in one region.
    Overlay,
    /// Render visible channels in vertically split lanes.
    Split,
}

impl DisplayMode {
    /// Persisted index of a display mode.
    pub open spec fn spec_to_index(self) -> u32 {
        match self {
            DisplayMode::Overlay => 0,
            DisplayMode::Split => 1,
        }
    }

    /// Display mode stored under an index; unknown indices read as overlay.
    pub open spec fn spec_from_index(value: u32) -> Self {
        if value == 1 {
            DisplayMode::Split
        } else {
            DisplayMode::Overlay
        }
    }

    /// Return a compact persisted representation.
    pub fn to_index(self) -> (index: u32)
        ensures
            index == self.spec_to_index(),
    {
        match self {
            DisplayMode::Overlay => 0,
            DisplayMode::Split => 1,
        }
    }

    /// Resolve one display mode from its persisted representation.
    pub fn from_index(value: u32) -> (mode: Self)
        ensures
            mode == Self::spec_from_index(value),
    {
        match value {
            1 => DisplayMode::Split,
            _ => DisplayMode::Overlay,
        }
    }
}

/// Every enumerated parameter reads back from its persisted index.
pub proof fn lemma_index_roundtrip(
    mode: ScopeMode,
    window: TimeWindow,
    subdivision: GridSubdivision,
    display: DisplayMode,
)
    ensures
        ScopeMode::spec_from_index(mode.spec_to_index()) == mode,
        TimeWindow::spec_from_index(window.spec_to_index()) == window,
        GridSubdivision::spec_from_index(subdivision.spec_to_index()) == subdivision,
        DisplayMode::spec_from_index(display.spec_to_index()) == display,
{
}

/// Snapshot of core user-facing UI state.
///
/// Zoom multipliers are `f32` values held as their bit patterns; two states
/// are equal when their zooms are equal as IEEE numbers and their other
/// fields are equal.
#[derive(Clone, Copy, Debug)]
pub struct XcopeUiState {
    /// Current scope mode.
    pub mode: ScopeMode,
    /// Current time window preset.
    pub time_window: TimeWindow,
    /// Current grid subdivision.
    pub grid_subdivision: GridSubdivision,
    /// Triplet subdivision toggle.
    pub grid_triplet: bool,
    /// Current display mode.
    pub display_mode: DisplayMode,
    /// Freeze flag.
    pub freeze: bool,
    /// Horizontal zoom multiplier (`f32` bits).
    pub zoom_x_bits: u32,
    /// Vertical zoom multiplier (`f32` bits).
    pub zoom_y_bits: u32,
    /// Per-channel visibility flags.
    pub channel_visible: [bool; MAX_VISUAL_CHANNELS],
    /// Per-channel color palette index.
    pub channel_color: [u32; MAX_VISUAL_CHANNELS],
}

impl XcopeUiState {
    /// The V1 default state: free-running, one bar, sixteenth grid without
    /// triplets, overlay, not frozen, unit zoom, both channels visible with
    /// palette colors 0 and 1.
    pub open spec fn spec_default() -> Self {
        XcopeUiState {
            mode: ScopeMode::FreeRunning,
            time_window: TimeWindow::OneBar,
            grid_subdivision: GridSubdivision::Div16,
            grid_triplet: false,
            display_mode: DisplayMode::Overlay,
            freeze: false,
            zoom_x_bits: ZOOM_X_DEFAULT_BITS,
            zoom_y_bits: ZOOM_Y_DEFAULT_BITS,
            channel_visible: [true, true],
            channel_color: [0, 1],
        }
    }
}

impl PartialEq for XcopeUiState {
    fn eq(&self, other: &Self) -> (equal: bool) {
        self.mode == other.mode && self.time_window == other.time_window && self.grid_subdivision
            == other.grid_subdivision && self.grid_triplet == other.grid_triplet && self.display_mode
            == other.display_mode && self.freeze == other.freeze && f32_bits_ieee_eq(
            self.zoom_x_bits,
            other.zoom_x_bits,
        ) && f32_bits_ieee_eq(self.zoom_y_bits, other.zoom_y_bits) && self.channel_visible[0]
            == other.channel_visible[0] && self.channel_visible[1] == other.channel_visible[1]
            && self.channel_color[0] == other.channel_color[0] && self.channel_color[1]
            == other.channel_color[1]
    }
}

impl PartialEqSpecImpl for XcopeUiState {
    open spec fn obeys_eq_spec() -> bool {
        true
    }

    open spec fn eq_spec(&self, other: &Self) -> bool {
        &&& self.mode == other.mode
        &&& self.time_window == other.time_window
        &&& self.grid_subdivision == other.grid_subdivision
        &&& self.grid_triplet == other.grid_triplet
        &&& self.display_mode == other.display_mode
        &&& self.freeze == other.freeze
        &&& f32_ieee_eq(self.zoom_x_bits, other.zoom_x_bits)
        &&& f32_ieee_eq(self.zoom_y_bits, other.zoom_y_bits)
        &&& forall|k: int|
            0 <= k < MAX_VISUAL_CHANNELS ==> #[trigger] self.channel_visible[k]
                == other.channel_visible[k] && self.channel_color[k] == other.channel_color[k]
    }
}

impl XcopeUiState {
    /// This state with one channel's visibility replaced.
    pub open spec fn with_channel_visible(self, channel: int, visible: bool) -> Self {
        XcopeUiState {
            channel_visible: if channel == 0 {
                [visible, self.channel_visible[1]]
            } else {
                [self.channel_visible[0], visible]
            },
            ..self
        }
    }

    /// This state with one channel's palette index replaced.
    pub open spec fn with_channel_color(self, channel: int, color: u32) -> Self {
        XcopeUiState {
            channel_color: if channel == 0 {
                [color, self.channel_color[1]]
            } else {
                [self.channel_color[0], color]
            },
            ..self
        }
    }
}

impl Default for XcopeUiState {
    fn default() -> (state: Self)
        ensures
            state == Self::spec_default(),
    {
        XcopeUiState {
            mode: ScopeMode::FreeRunning,
            time_window: TimeWindow::OneBar,
            grid_subdivision: GridSubdivision::Div16,
            grid_triplet: false,
            display_mode: DisplayMode::Overlay,
            freeze: false,
            zoom_x_bits: ZOOM_X_DEFAULT_BITS,
            zoom_y_bits: ZOOM_Y_DEFAULT_BITS,
            channel_visible: [true, true],
            channel_color: [0, 1],
        }
    }
}

} // verus!
