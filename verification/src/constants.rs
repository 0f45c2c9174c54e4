//! Shared constants for the Xcope oscilloscope core.

use vstd::prelude::*;

verus! {

/// Human-readable plugin name shown in hosts.
pub const PLUGIN_NAME: &'static str = "xcope";

/// Stable plugin identifier string.
pub const PLUGIN_ID: &'static str = "com.portalsurfer.xcope";

/// Default logical editor width in design-space pixels.
pub const WINDOW_WIDTH: u32 = 880;

/// Default logical editor height in design-space pixels.
pub const WINDOW_HEIGHT: u32 = 500;

/// State payload magic (`XCOP` read as a little-endian `u32`).
pub const STATE_MAGIC: u32 = 0x504F_4358;

/// State payload format version.
pub const STATE_VERSION: u32 = 1;

/// Maximum number of channels visualized at once.
///
/// Channel 1 captures the host track's left channel.
/// Channel 2 captures the sidechain input's left channel.
pub const MAX_VISUAL_CHANNELS: usize = 2;

/// Number of color slots available for channel tint selection.
pub const CHANNEL_COLOR_COUNT: u32 = 8;

/// Minimum zoom multiplier (`0.25f32`), as its IEEE-754 bit pattern.
pub const ZOOM_MIN_BITS: u32 = 0x3E80_0000;

/// Maximum zoom multiplier (`4.0f32`), as its IEEE-754 bit pattern.
pub const ZOOM_MAX_BITS: u32 = 0x4080_0000;

/// Default horizontal zoom multiplier (`1.0f32`), as its IEEE-754 bit pattern.
pub const ZOOM_X_DEFAULT_BITS: u32 = 0x3F80_0000;

/// Default vertical zoom multiplier (`1.0f32`), as its IEEE-754 bit pattern.
pub const ZOOM_Y_DEFAULT_BITS: u32 = 0x3F80_0000;

/// Minimum scope window sample count.
pub const MIN_SCOPE_WINDOW_SAMPLES: usize = 64;

/// Maximum scope window sample count.
pub const MAX_SCOPE_WINDOW_SAMPLES: usize = 262_144;

/// Ring-buffer capacity used by the real-time scope capture path.
pub const CAPTURE_BUFFER_CAPACITY: usize = 262_144;

/// Parameter ids used by the host controller and processor.
#[derive(Clone, Copy, Debug, PartialEq, Eq, Structural)]
pub enum ParamId {
    /// Scope mode (free-running or tempo-locked).
    ScopeMode,
    /// Visible musical window length selector.
    TimeWindow,
    /// Grid subdivision selector.
    GridSubdivision,
    /// Grid triplet toggle.
    GridTriplet,
    /// Channel display mode selector (overlay/split).
    DisplayMode,
    /// Freeze toggle.
    Freeze,
    /// Horizontal zoom factor.
    ZoomX,
    /// Vertical zoom factor.
    ZoomY,
    /// Channel 1 visibility.
    Channel1Visible,
    /// Channel 2 visibility.
    Channel2Visible,
    /// Channel 1 color palette index.
    Channel1Color,
    /// Channel 2 color palette index.
    Channel2Color,
}

impl ParamId {
    /// The stable raw id of a parameter: ids run from 1 to 12 in declaration order.
    pub open spec fn spec_raw(self) -> u32 {
        match self {
            ParamId::ScopeMode => 1,
            ParamId::TimeWindow => 2,
            ParamId::GridSubdivision => 3,
            ParamId::GridTriplet => 4,
            ParamId::DisplayMode => 5,
            ParamId::Freeze => 6,
            ParamId::ZoomX => 7,
            ParamId::ZoomY => 8,
            ParamId::Channel1Visible => 9,
            ParamId::Channel2Visible => 10,
            ParamId::Channel1Color => 11,
            ParamId::Channel2Color => 12,
        }
    }

    /// Return the stable id as a raw `u32`.
    pub fn raw(self) -> (raw: u32)
        ensures
            raw == self.spec_raw(),
            1 <= raw <= 12,
    {
        match self {
            ParamId::ScopeMode => 1,
            ParamId::TimeWindow => 2,
            ParamId::GridSubdivision => 3,
            ParamId::GridTriplet => 4,
            ParamId::DisplayMode => 5,
            ParamId::Freeze => 6,
            ParamId::ZoomX => 7,
            ParamId::ZoomY => 8,
            ParamId::Channel1Visible => 9,
            ParamId::Channel2Visible => 10,
            ParamId::Channel1Color => 11,
            ParamId::Channel2Color => 12,
        }
    }

    /// Resolve one parameter id from its raw `u32` representation.
    pub fn from_raw(raw: u32) -> (id: Option<Self>)
        ensures
            id matches Some(p) ==> p.spec_raw() == raw,
            id is None <==> !(1 <= raw <= 12),
    {
        match raw {
            1 => Some(ParamId::ScopeMode),
            2 => Some(ParamId::TimeWindow),
            3 => Some(ParamId::GridSubdivision),
            4 => Some(ParamId::GridTriplet),
            5 => Some(ParamId::DisplayMode),
            6 => Some(ParamId::Freeze),
            7 => Some(ParamId::ZoomX),
            8 => Some(ParamId::ZoomY),
            9 => Some(ParamId::Channel1Visible),
            10 => Some(ParamId::Channel2Visible),
            11 => Some(ParamId::Channel1Color),
            12 => Some(ParamId::Channel2Color),
            _ => None,
        }
    }
}

/// Raw ids and parameters correspond one to one: `from_raw` inverts `raw`.
pub proof fn lemma_param_id_raw_roundtrip(p: ParamId)
    ensures
        1 <= p.spec_raw() <= 12,
        forall|q: ParamId| q.spec_raw() == p.spec_raw() ==> q == p,
{
}

} // verus!
