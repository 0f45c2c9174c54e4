//! Host automation values in plain form.
//!
//! A host addresses a parameter by raw id and exchanges a normalized value in
//! `[0, 1]`. The conversion between that real number and the parameter's
//! plain value is the only real arithmetic involved; everything else, which
//! parameter a value belongs to and how it lands in the store, happens here
//! on plain values:
//!
//! - selectors and toggles: the step index (`0..=steps`, see
//!   [`param_steps`](super::meta::param_steps));
//! - zoom multipliers: the `f32` bits of the multiplier;
//! - colors: the palette index.

use vstd::prelude::*;

use crate::constants::ParamId;

use super::meta::spec_param_steps;
use super::store::{spec_clamp_color_index, spec_clamp_zoom, XcopeParams};
use super::types::{DisplayMode, GridSubdivision, ScopeMode, TimeWindow, XcopeUiState};

verus! {

/// Plain value a toggle takes for a flag.
pub open spec fn flag_step(flag: bool) -> u32 {
    if flag {
        1
    } else {
        0
    }
}

/// Plain value of one parameter id in a UI state; `None` for unknown ids.
pub open spec fn spec_read_param_plain(state: XcopeUiState, param_id: u32) -> Option<u32> {
    if param_id == 1 {
        Some(state.mode.spec_to_index())
    } else if param_id == 2 {
        Some(state.time_window.spec_to_index())
    } else if param_id == 3 {
        Some(state.grid_subdivision.spec_to_index())
    } else if param_id == 4 {
        Some(flag_step(state.grid_triplet))
    } else if param_id == 5 {
        Some(state.display_mode.spec_to_index())
    } else if param_id == 6 {
        Some(flag_step(state.freeze))
    } else if param_id == 7 {
        Some(state.zoom_x_bits)
    } else if param_id == 8 {
        Some(state.zoom_y_bits)
    } else if param_id == 9 {
        Some(flag_step(state.channel_visible[0]))
    } else if param_id == 10 {
        Some(flag_step(state.channel_visible[1]))
    } else if param_id == 11 {
        Some(state.channel_color[0])
    } else if param_id == 12 {
        Some(state.channel_color[1])
    } else {
        None
    }
}

/// UI state after one plain value is applied to a parameter id, with the
/// store's clamping: two-way selectors and toggles are on for any non-zero
/// step, the window and grid selectors decode their step as a persisted
/// index, zoom and colors are clamped. Unknown ids change nothing.
pub open spec fn spec_apply_param_plain(state: XcopeUiState, param_id: u32, plain: u32) -> XcopeUiState {
    if param_id == 1 {
        XcopeUiState {
            mode: if plain != 0 {
                ScopeMode::TempoLocked
            } else {
                ScopeMode::FreeRunning
            },
            ..state
        }
    } else if param_id == 2 {
        XcopeUiState { time_window: TimeWindow::spec_from_index(plain), ..state }
    } else if param_id == 3 {
        XcopeUiState { grid_subdivision: GridSubdivision::spec_from_index(plain), ..state }
    } else if param_id == 4 {
        XcopeUiState { grid_triplet: plain != 0, ..state }
    } else if param_id == 5 {
        XcopeUiState {
            display_mode: if plain != 0 {
                DisplayMode::Split
            } else {
                DisplayMode::Overlay
            },
            ..state
        }
    } else if param_id == 6 {
        XcopeUiState { freeze: plain != 0, ..state }
    } else if param_id == 7 {
        XcopeUiState { zoom_x_bits: spec_clamp_zoom(plain), ..state }
    } else if param_id == 8 {
        XcopeUiState { zoom_y_bits: spec_clamp_zoom(plain), ..state }
    } else if param_id == 9 {
        state.with_channel_visible(0, plain != 0)
    } else if param_id == 10 {
        state.with_channel_visible(1, plain != 0)
    } else if param_id == 11 {
        state.with_channel_color(0, spec_clamp_color_index(plain))
    } else if param_id == 12 {
        state.with_channel_color(1, spec_clamp_color_index(plain))
    } else {
        state
    }
}

/// Host automation round-trips: reading a parameter after writing an
/// in-range step gives that step back, a zoom reads back clamped, and writing
/// one parameter leaves every other parameter's plain value unchanged.
pub proof fn lemma_plain_value_roundtrip(state: XcopeUiState, param_id: u32, plain: u32, other_id: u32)
    requires
        1 <= param_id <= 12,
    ensures
        param_id != 7 && param_id != 8 && plain <= spec_param_steps(param_id) ==>
            spec_read_param_plain(spec_apply_param_plain(state, param_id, plain), param_id)
                == Some(plain),
        param_id == 7 || param_id == 8 ==> spec_read_param_plain(
            spec_apply_param_plain(state, param_id, plain),
            param_id,
        ) == Some(spec_clamp_zoom(plain)),
        other_id != param_id ==> spec_read_param_plain(
            spec_apply_param_plain(state, param_id, plain),
            other_id,
        ) == spec_read_param_plain(state, other_id),
{
}

fn flag_to_step(flag: bool) -> (step: u32)
    ensures
        step == flag_step(flag),
{
    if flag {
        1
    } else {
        0
    }
}

/// Return one parameter's plain value; `None` for an unknown id.
pub fn read_param_plain(params: &XcopeParams, param_id: u32) -> (plain: Option<u32>)
    ensures
        plain == spec_read_param_plain(params@, param_id),
{
    let snapshot = params.snapshot();
    let param = match ParamId::from_raw(param_id) {
        Some(param) => param,
        None => return None,
    };
    let value = match param {
        ParamId::ScopeMode => snapshot.mode.to_index(),
        ParamId::TimeWindow => snapshot.time_window.to_index(),
        ParamId::GridSubdivision => snapshot.grid_subdivision.to_index(),
        ParamId::GridTriplet => flag_to_step(snapshot.grid_triplet),
        ParamId::DisplayMode => snapshot.display_mode.to_index(),
        ParamId::Freeze => flag_to_step(snapshot.freeze),
        ParamId::ZoomX => snapshot.zoom_x_bits,
        ParamId::ZoomY => snapshot.zoom_y_bits,
        ParamId::Channel1Visible => flag_to_step(snapshot.channel_visible[0]),
        ParamId::Channel2Visible => flag_to_step(snapshot.channel_visible[1]),
        ParamId::Channel1Color => snapshot.channel_color[0],
        ParamId::Channel2Color => snapshot.channel_color[1],
    };
    Some(value)
}

/// Apply one plain value; return `false` (and change nothing) for an
/// unknown id.
pub fn apply_param_plain(params: &mut XcopeParams, param_id: u32, plain: u32) -> (known: bool)
    ensures
        known == (1 <= param_id <= 12),
        final(params)@ == spec_apply_param_plain(old(params)@, param_id, plain),
{
    let param = match ParamId::from_raw(param_id) {
        Some(param) => param,
        None => return false,
    };
    match param {
        ParamId::ScopeMode => params.set_mode(
            if plain != 0 {
                ScopeMode::TempoLocked
            } else {
                ScopeMode::FreeRunning
            },
        ),
        ParamId::TimeWindow => params.set_time_window(TimeWindow::from_index(plain)),
        ParamId::GridSubdivision => params.set_grid_subdivision(GridSubdivision::from_index(plain)),
        ParamId::GridTriplet => params.set_grid_triplet(plain != 0),
        ParamId::DisplayMode => params.set_display_mode(
            if plain != 0 {
                DisplayMode::Split
            } else {
                DisplayMode::Overlay
            },
        ),
        ParamId::Freeze => params.set_freeze(plain != 0),
        ParamId::ZoomX => params.set_zoom_x(plain),
        ParamId::ZoomY => params.set_zoom_y(plain),
        ParamId::Channel1Visible => params.set_channel_visible(0, plain != 0),
        ParamId::Channel2Visible => params.set_channel_visible(1, plain != 0),
        ParamId::Channel1Color => params.set_channel_color(0, plain),
        ParamId::Channel2Color => params.set_channel_color(1, plain),
    }
    true
}

} // verus!
