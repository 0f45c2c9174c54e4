//! Layout geometry and control keys of the Xcope editor.

use vstd::arithmetic::div_mod::lemma_fundamental_div_mod;
use vstd::prelude::*;

use crate::constants::{WINDOW_HEIGHT, WINDOW_WIDTH};

verus! {

/// Root frame key.
pub const ROOT_KEY: &'static str = "xcope-root";

/// Scope surface key.
pub const SCOPE_SURFACE_KEY: &'static str = "scope-surface";

/// Mode selector key.
pub const MODE_KEY: &'static str = "mode";

/// Time-window selector key.
pub const WINDOW_KEY: &'static str = "time-window";

/// Display-mode selector key.
pub const DISPLAY_KEY: &'static str = "display-mode";

/// Grid subdivision selector key.
pub const GRID_SUBDIV_KEY: &'static str = "grid-subdivision";

/// Triplet toggle key.
pub const GRID_TRIPLET_KEY: &'static str = "grid-triplet";

/// Freeze toggle key.
pub const FREEZE_KEY: &'static str = "freeze";

/// Horizontal zoom slider key.
pub const ZOOM_X_KEY: &'static str = "zoom-x";

/// Vertical zoom slider key.
pub const ZOOM_Y_KEY: &'static str = "zoom-y";

/// Reset-zoom button key.
pub const RESET_ZOOM_KEY: &'static str = "reset-zoom";

/// Channel 1 visibility toggle key.
pub const CHANNEL_1_VISIBLE_KEY: &'static str = "ch1-visible";

/// Channel 2 visibility toggle key.
pub const CHANNEL_2_VISIBLE_KEY: &'static str = "ch2-visible";

/// Channel 1 color-dropdown key.
pub const CHANNEL_1_COLOR_KEY: &'static str = "ch1-color";

/// Channel 2 color-dropdown key.
pub const CHANNEL_2_COLOR_KEY: &'static str = "ch2-color";

/// Toolbar region fixed design-space height.
pub const TOOLBAR_HEIGHT: u32 = 84;

/// Bottom control-bar fixed design-space height.
pub const BOTTOM_BAR_HEIGHT: u32 = 96;

/// Scope region fixed design-space height.
pub const SCOPE_HEIGHT: u32 = WINDOW_HEIGHT - TOOLBAR_HEIGHT - BOTTOM_BAR_HEIGHT;

/// Sum of the design-space region heights.
pub const TOTAL_VERTICAL_WEIGHT: u32 = TOOLBAR_HEIGHT + SCOPE_HEIGHT + BOTTOM_BAR_HEIGHT;

/// A size in logical pixels.
#[derive(Clone, Copy, Debug, PartialEq, Eq, Structural)]
pub struct Size {
    /// Width in pixels.
    pub width: u32,
    /// Height in pixels.
    pub height: u32,
}

impl Default for Size {
    fn default() -> (size: Self)
        ensures
            size.width == 0 && size.height == 0,
    {
        Size { width: 0, height: 0 }
    }
}

/// Runtime-resolved layout geometry for the current editor size.
#[derive(Clone, Copy, Debug, PartialEq, Eq, Structural)]
pub struct LayoutGeometry {
    /// Root editor size in pixels.
    pub root_size: Size,
    /// Toolbar region height in pixels.
    pub toolbar_height: u32,
    /// Scope surface region height in pixels.
    pub scope_height: u32,
    /// Bottom control-bar region height in pixels.
    pub bottom_bar_height: u32,
}

/// A region's share of the total height, in proportion to its design-space
/// height, rounded down.
pub open spec fn spec_proportional_height(total_height: nat, weight: nat) -> nat {
    total_height * weight / (TOTAL_VERTICAL_WEIGHT as nat)
}

/// The geometry for a host window size: the root is at least the design
/// size; toolbar and bottom bar take their proportional shares (at least one
/// pixel each); the scope takes the rest, leaving it at least one pixel.
pub open spec fn spec_layout_geometry(window_size: Size) -> LayoutGeometry {
    let width = if window_size.width > WINDOW_WIDTH {
        window_size.width
    } else {
        WINDOW_WIDTH
    };
    let height = if window_size.height > WINDOW_HEIGHT {
        window_size.height
    } else {
        WINDOW_HEIGHT
    };
    let toolbar = spec_proportional_height(height as nat, TOOLBAR_HEIGHT as nat);
    let bottom = spec_proportional_height(height as nat, BOTTOM_BAR_HEIGHT as nat);
    let toolbar = if toolbar < 1 {
        1
    } else {
        toolbar
    };
    let bottom = if bottom < 1 {
        1
    } else {
        bottom
    };
    let reserved = if toolbar + bottom < height - 1 {
        toolbar + bottom
    } else {
        (height - 1) as nat
    };
    LayoutGeometry {
        root_size: Size { width, height },
        toolbar_height: toolbar as u32,
        scope_height: (height - reserved) as u32,
        bottom_bar_height: bottom as u32,
    }
}

/// The three regions tile the root exactly: each is at least one pixel high
/// and together they are as high as the root, so nothing overlaps and nothing
/// is left over; the root is never smaller than the design size.
pub proof fn lemma_layout_tiles_root(window_size: Size)
    ensures
        ({
            let geometry = spec_layout_geometry(window_size);
            &&& geometry.root_size.width >= WINDOW_WIDTH
            &&& geometry.root_size.height >= WINDOW_HEIGHT
            &&& geometry.toolbar_height >= 1
            &&& geometry.scope_height >= 1
            &&& geometry.bottom_bar_height >= 1
            &&& geometry.toolbar_height + geometry.scope_height + geometry.bottom_bar_height
                == geometry.root_size.height
        }),
{
    let height = if window_size.height > WINDOW_HEIGHT {
        window_size.height as int
    } else {
        WINDOW_HEIGHT as int
    };
    lemma_fundamental_div_mod(height * 84, 500);
    lemma_fundamental_div_mod(height * 96, 500);
    let toolbar = (height * 84) / 500;
    let bottom = (height * 96) / 500;
    assert(toolbar >= 1 && bottom >= 1 && toolbar + bottom < height - 1) by (nonlinear_arith)
        requires
            height >= 500,
            height * 84 == 500 * toolbar + (height * 84) % 500,
            0 <= (height * 84) % 500 < 500,
            height * 96 == 500 * bottom + (height * 96) % 500,
            0 <= (height * 96) % 500 < 500,
    ;
}

fn proportional_height(total_height: u32, weight: u32) -> (height: u32)
    requires
        weight <= TOTAL_VERTICAL_WEIGHT,
    ensures
        height as nat == spec_proportional_height(total_height as nat, weight as nat),
        height <= total_height,
{
    proof {
        assert((total_height as nat) * (weight as nat) <= (total_height as nat) * 500) by (nonlinear_arith)
            requires
                weight <= 500,
        ;
        assert((total_height as nat) * (weight as nat) <= u64::MAX) by (nonlinear_arith)
            requires
                weight <= 500,
                total_height <= u32::MAX,
        ;
        lemma_fundamental_div_mod((total_height as int) * (weight as int), 500);
        let q = ((total_height as int) * (weight as int)) / 500;
        assert(q <= total_height) by (nonlinear_arith)
            requires
                (total_height as int) * (weight as int) == 500 * q + ((total_height as int) * (
                weight as int)) % 500,
                0 <= ((total_height as int) * (weight as int)) % 500,
                weight <= 500,
                total_height >= 0,
        ;
    }
    ((total_height as u64) * (weight as u64) / (TOTAL_VERTICAL_WEIGHT as u64)) as u32
}

/// Clamp a region height into the range of a layout slot weight.
pub fn slot_weight(height: u32) -> (weight: u16)
    ensures
        weight as nat == (if height < 1 {
            1
        } else if height > u16::MAX {
            u16::MAX as nat
        } else {
            height as nat
        }),
{
    if height < 1 {
        1
    } else if height > 65535 {
        65535
    } else {
        height as u16
    }
}

/// Resolve runtime layout geometry from one host-provided window size.
pub fn resolve_layout_geometry(window_size: Size) -> (geometry: LayoutGeometry)
    ensures
        geometry == spec_layout_geometry(window_size),
{
    let root_size = Size {
        width: if window_size.width > WINDOW_WIDTH {
            window_size.width
        } else {
            WINDOW_WIDTH
        },
        height: if window_size.height > WINDOW_HEIGHT {
            window_size.height
        } else {
            WINDOW_HEIGHT
        },
    };
    let toolbar_raw = proportional_height(root_size.height, TOOLBAR_HEIGHT);
    let bottom_raw = proportional_height(root_size.height, BOTTOM_BAR_HEIGHT);
    let toolbar_height = if toolbar_raw < 1 {
        1
    } else {
        toolbar_raw
    };
    let bottom_bar_height = if bottom_raw < 1 {
        1
    } else {
        bottom_raw
    };
    let reserved = if (toolbar_height as u64) + (bottom_bar_height as u64) < (root_size.height as u64) - 1 {
        toolbar_height + bottom_bar_height
    } else {
        root_size.height - 1
    };
    let scope_height = root_size.height - reserved;
    LayoutGeometry { root_size, toolbar_height, scope_height, bottom_bar_height }
}

/// Return preferred default editor size.
pub fn preferred_window_size() -> (size: (u32, u32))
    ensures
        size == (WINDOW_WIDTH, WINDOW_HEIGHT),
{
    (WINDOW_WIDTH, WINDOW_HEIGHT)
}

/// Clamp one host-provided size against the editor minimums.
pub fn constrained_host_size(size: Size) -> (constrained: Size)
    ensures
        constrained.width == if size.width > WINDOW_WIDTH {
            size.width
        } else {
            WINDOW_WIDTH
        },
        constrained.height == if size.height > WINDOW_HEIGHT {
            size.height
        } else {
            WINDOW_HEIGHT
        },
{
    Size {
        width: if size.width > WINDOW_WIDTH {
            size.width
        } else {
            WINDOW_WIDTH
        },
        height: if size.height > WINDOW_HEIGHT {
            size.height
        } else {
            WINDOW_HEIGHT
        },
    }
}

} // verus!
