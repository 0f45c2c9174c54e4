//! Parameter metadata reported to hosts.

use vstd::prelude::*;

use crate::constants::ParamId;

verus! {

/// Host-visible title of a parameter id.
pub open spec fn spec_param_title(param_id: u32) -> &'static str {
    if param_id == 1 {
        "Mode"
    } else if param_id == 2 {
        "Window"
    } else if param_id == 3 {
        "Grid"
    } else if param_id == 4 {
        "Triplet"
    } else if param_id == 5 {
        "Display"
    } else if param_id == 6 {
        "Freeze"
    } else if param_id == 7 {
        "Zoom X"
    } else if param_id == 8 {
        "Zoom Y"
    } else if param_id == 9 {
        "Ch1"
    } else if param_id == 10 {
        "Ch2"
    } else if param_id == 11 {
        "Ch1 Color"
    } else if param_id == 12 {
        "Ch2 Color"
    } else {
        "Unknown"
    }
}

/// Number of discrete steps of a parameter id: one for toggles and two-way
/// selectors, three for the window selector, two for the grid selector, seven
/// for the color selectors, none for continuous zoom and unknown ids.
pub open spec fn spec_param_steps(param_id: u32) -> i32 {
    if param_id == 1 || param_id == 4 || param_id == 5 || param_id == 6 || param_id == 9
        || param_id == 10 {
        1
    } else if param_id == 2 {
        3
    } else if param_id == 3 {
        2
    } else if param_id == 11 || param_id == 12 {
        7
    } else {
        0
    }
}

/// Return the number of exposed parameters.
pub fn param_count() -> (count: u32)
    ensures
        count == 12,
        count == ParamId::Channel2Color.spec_raw(),
{
    ParamId::Channel2Color.raw()
}

/// Return the host-visible parameter title for one id.
pub fn param_title(param_id: u32) -> (title: &'static str)
    ensures
        title == spec_param_title(param_id),
{
    match ParamId::from_raw(param_id) {
        Some(ParamId::ScopeMode) => "Mode",
        Some(ParamId::TimeWindow) => "Window",
        Some(ParamId::GridSubdivision) => "Grid",
        Some(ParamId::GridTriplet) => "Triplet",
        Some(ParamId::DisplayMode) => "Display",
        Some(ParamId::Freeze) => "Freeze",
        Some(ParamId::ZoomX) => "Zoom X",
        Some(ParamId::ZoomY) => "Zoom Y",
        Some(ParamId::Channel1Visible) => "Ch1",
        Some(ParamId::Channel2Visible) => "Ch2",
        Some(ParamId::Channel1Color) => "Ch1 Color",
        Some(ParamId::Channel2Color) => "Ch2 Color",
        None => "Unknown",
    }
}

/// Return the host-visible unit label for one id: `x` for the zoom
/// multipliers, empty otherwise.
pub fn param_units(param_id: u32) -> (units: &'static str)
    ensures
        units == (if param_id == 7 || param_id == 8 {
            "x"
        } else {
            ""
        }),
{
    match ParamId::from_raw(param_id) {
        Some(ParamId::ZoomX) => "x",
        Some(ParamId::ZoomY) => "x",
        _ => "",
    }
}

/// Return the discrete step count for one parameter id.
pub fn param_steps(param_id: u32) -> (steps: i32)
    ensures
        steps == spec_param_steps(param_id),
{
    match ParamId::from_raw(param_id) {
        Some(ParamId::ScopeMode) => 1,
        Some(ParamId::DisplayMode) => 1,
        Some(ParamId::GridTriplet) => 1,
        Some(ParamId::Freeze) => 1,
        Some(ParamId::Channel1Visible) => 1,
        Some(ParamId::Channel2Visible) => 1,
        Some(ParamId::TimeWindow) => 3,
        Some(ParamId::GridSubdivision) => 2,
        Some(ParamId::Channel1Color) => 7,
        Some(ParamId::Channel2Color) => 7,
        _ => 0,
    }
}

} // verus!
