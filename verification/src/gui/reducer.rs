//! UI action reducer for Xcope editor interactions.

use vstd::prelude::*;

use crate::constants::{CHANNEL_COLOR_COUNT, ZOOM_X_DEFAULT_BITS, ZOOM_Y_DEFAULT_BITS};
use crate::params::store::spec_clamp_zoom;
use crate::params::{DisplayMode, GridSubdivision, ScopeMode, TimeWindow, XcopeParams, XcopeUiState};

use super::layout::{
    CHANNEL_1_COLOR_KEY, CHANNEL_1_VISIBLE_KEY, CHANNEL_2_COLOR_KEY, CHANNEL_2_VISIBLE_KEY, DISPLAY_KEY, FREEZE_KEY, GRID_SUBDIV_KEY,
    GRID_TRIPLET_KEY, MODE_KEY, RESET_ZOOM_KEY, WINDOW_KEY, ZOOM_X_KEY, ZOOM_Y_KEY,
};

verus! {

/// One interaction reported by the declarative editor.
#[derive(Debug, PartialEq)]
pub enum UiAction {
    /// A dropdown option was chosen.
    DropdownSelected {
        /// Control key.
        key: String,
        /// Chosen option index.
        index: usize,
    },
    /// A toggle changed state.
    ToggleChanged {
        /// Control key.
        key: String,
        /// New toggle state.
        value: bool,
    },
    /// A slider moved.
    SliderChanged {
        /// Control key.
        key: String,
        /// New slider value (`f32` bits).
        value_bits: u32,
    },
    /// A button was pressed.
    ButtonPressed {
        /// Control key.
        key: String,
    },
}

/// Palette index chosen by a channel colour dropdown option: the option's
/// index, or the last palette entry for an index past the palette.
pub open spec fn spec_dropdown_color(index: usize) -> u32 {
    if index < CHANNEL_COLOR_COUNT {
        index as u32
    } else {
        (CHANNEL_COLOR_COUNT - 1) as u32
    }
}

/// The UI state after one editor action: the mode, window, display and grid
/// dropdowns select their option (unknown options fall back to free-running,
/// one bar, overlay and sixteenths); the channel colour dropdowns select a
/// palette entry; the freeze, triplet and channel toggles
/// set their flag; the zoom sliders set a clamped zoom; the reset button
/// restores unit zoom. Any other control changes nothing.
pub open spec fn spec_apply_ui_action(state: XcopeUiState, action: UiAction) -> XcopeUiState {
    match action {
        UiAction::DropdownSelected { key, index } => {
            if key@ == MODE_KEY@ {
                XcopeUiState {
                    mode: if index == 1 {
                        ScopeMode::TempoLocked
                    } else {
                        ScopeMode::FreeRunning
                    },
                    ..state
                }
            } else if key@ == WINDOW_KEY@ {
                XcopeUiState {
                    time_window: if index == 0 {
                        TimeWindow::OneBeat
                    } else if index == 2 {
                        TimeWindow::TwoBars
                    } else if index == 3 {
                        TimeWindow::FourBars
                    } else {
                        TimeWindow::OneBar
                    },
                    ..state
                }
            } else if key@ == DISPLAY_KEY@ {
                XcopeUiState {
                    display_mode: if index == 1 {
                        DisplayMode::Split
                    } else {
                        DisplayMode::Overlay
                    },
                    ..state
                }
            } else if key@ == GRID_SUBDIV_KEY@ {
                XcopeUiState {
                    grid_subdivision: if index == 0 {
                        GridSubdivision::Div8
                    } else if index == 2 {
                        GridSubdivision::Div32
                    } else {
                        GridSubdivision::Div16
                    },
                    ..state
                }
            } else if key@ == CHANNEL_1_COLOR_KEY@ {
                state.with_channel_color(0, spec_dropdown_color(index))
            } else if key@ == CHANNEL_2_COLOR_KEY@ {
                state.with_channel_color(1, spec_dropdown_color(index))
            } else {
                state
            }
        },
        UiAction::ToggleChanged { key, value } => {
            if key@ == FREEZE_KEY@ {
                XcopeUiState { freeze: value, ..state }
            } else if key@ == GRID_TRIPLET_KEY@ {
                XcopeUiState { grid_triplet: value, ..state }
            } else if key@ == CHANNEL_1_VISIBLE_KEY@ {
                state.with_channel_visible(0, value)
            } else if key@ == CHANNEL_2_VISIBLE_KEY@ {
                state.with_channel_visible(1, value)
            } else {
                state
            }
        },
        UiAction::SliderChanged { key, value_bits } => {
            if key@ == ZOOM_X_KEY@ {
                XcopeUiState { zoom_x_bits: spec_clamp_zoom(value_bits), ..state }
            } else if key@ == ZOOM_Y_KEY@ {
                XcopeUiState { zoom_y_bits: spec_clamp_zoom(value_bits), ..state }
            } else {
                state
            }
        },
        UiAction::ButtonPressed { key } => {
            if key@ == RESET_ZOOM_KEY@ {
                XcopeUiState {
                    zoom_x_bits: spec_clamp_zoom(ZOOM_X_DEFAULT_BITS),
                    zoom_y_bits: spec_clamp_zoom(ZOOM_Y_DEFAULT_BITS),
                    ..state
                }
            } else {
                state
            }
        },
    }
}

fn dropdown_color(index: usize) -> (color: u32)
    ensures
        color == spec_dropdown_color(index),
{
    if index < CHANNEL_COLOR_COUNT as usize {
        index as u32
    } else {
        CHANNEL_COLOR_COUNT - 1
    }
}

fn key_is(key: &String, expected: &'static str) -> (is: bool)
    ensures
        is == (key@ == expected@),
{
    let expected_key = String::from_str(expected);
    *key == expected_key
}

/// Apply one declarative UI action to shared parameters.
///
/// Returns `true` when the freeze state changed.
pub fn apply_ui_action(params: &mut XcopeParams, action: UiAction) -> (freeze_changed: bool)
    ensures
        final(params)@ == spec_apply_ui_action(old(params)@, action),
        freeze_changed == (old(params)@.freeze != final(params)@.freeze),
{
    let before_freeze = params.snapshot().freeze;
    match action {
        UiAction::DropdownSelected { key, index } => {
            if key_is(&key, MODE_KEY) {
                params.set_mode(
                    if index == 1 {
                        ScopeMode::TempoLocked
                    } else {
                        ScopeMode::FreeRunning
                    },
                );
            } else if key_is(&key, WINDOW_KEY) {
                params.set_time_window(
                    if index == 0 {
                        TimeWindow::OneBeat
                    } else if index == 2 {
                        TimeWindow::TwoBars
                    } else if index == 3 {
                        TimeWindow::FourBars
                    } else {
                        TimeWindow::OneBar
                    },
                );
            } else if key_is(&key, DISPLAY_KEY) {
                params.set_display_mode(
                    if index == 1 {
                        DisplayMode::Split
                    } else {
                        DisplayMode::Overlay
                    },
                );
            } else if key_is(&key, GRID_SUBDIV_KEY) {
                params.set_grid_subdivision(
                    if index == 0 {
                        GridSubdivision::Div8
                    } else if index == 2 {
                        GridSubdivision::Div32
                    } else {
                        GridSubdivision::Div16
                    },
                );
            } else if key_is(&key, CHANNEL_1_COLOR_KEY) {
                params.set_channel_color(0, dropdown_color(index));
            } else if key_is(&key, CHANNEL_2_COLOR_KEY) {
                params.set_channel_color(1, dropdown_color(index));
            }
        },
        UiAction::ToggleChanged { key, value } => {
            if key_is(&key, FREEZE_KEY) {
                params.set_freeze(value);
            } else if key_is(&key, GRID_TRIPLET_KEY) {
                params.set_grid_triplet(value);
            } else if key_is(&key, CHANNEL_1_VISIBLE_KEY) {
                params.set_channel_visible(0, value);
            } else if key_is(&key, CHANNEL_2_VISIBLE_KEY) {
                params.set_channel_visible(1, value);
            }
        },
        UiAction::SliderChanged { key, value_bits } => {
            if key_is(&key, ZOOM_X_KEY) {
                params.set_zoom_x(value_bits);
            } else if key_is(&key, ZOOM_Y_KEY) {
                params.set_zoom_y(value_bits);
            }
        },
        UiAction::ButtonPressed { key } => {
            if key_is(&key, RESET_ZOOM_KEY) {
                params.set_zoom_x(ZOOM_X_DEFAULT_BITS);
                params.set_zoom_y(ZOOM_Y_DEFAULT_BITS);
            }
        },
    }
    before_freeze != params.snapshot().freeze
}

/// Dropdown options follow the persisted order: choosing option `index` of
/// the mode, time-window, display or grid dropdown selects the value whose
/// persisted index is `index` (for the options the dropdown offers), and
/// changes nothing else; so choosing the option on display (the current
/// value's index) leaves the state as it is.
pub proof fn lemma_dropdown_option_selects_its_index(state: XcopeUiState, key: String, index: usize)
    ensures
        key@ == MODE_KEY@ && index <= 1 ==> ({
            let next = spec_apply_ui_action(state, UiAction::DropdownSelected { key, index });
            next.mode.spec_to_index() == index && next == XcopeUiState { mode: next.mode, ..state }
        }),
        key@ == WINDOW_KEY@ && index <= 3 ==> ({
            let next = spec_apply_ui_action(state, UiAction::DropdownSelected { key, index });
            next.time_window.spec_to_index() == index && next == XcopeUiState {
                time_window: next.time_window,
                ..state
            }
        }),
        key@ == DISPLAY_KEY@ && index <= 1 ==> ({
            let next = spec_apply_ui_action(state, UiAction::DropdownSelected { key, index });
            next.display_mode.spec_to_index() == index && next == XcopeUiState {
                display_mode: next.display_mode,
                ..state
            }
        }),
        key@ == GRID_SUBDIV_KEY@ && index <= 2 ==> ({
            let next = spec_apply_ui_action(state, UiAction::DropdownSelected { key, index });
            next.grid_subdivision.spec_to_index() == index && next == XcopeUiState {
                grid_subdivision: next.grid_subdivision,
                ..state
            }
        }),
        key@ == CHANNEL_1_COLOR_KEY@ && index < CHANNEL_COLOR_COUNT ==> spec_apply_ui_action(
            state,
            UiAction::DropdownSelected { key, index },
        ).channel_color[0] == index,
        key@ == CHANNEL_2_COLOR_KEY@ && index < CHANNEL_COLOR_COUNT ==> spec_apply_ui_action(
            state,
            UiAction::DropdownSelected { key, index },
        ).channel_color[1] == index,
        key@ == WINDOW_KEY@ ==> spec_apply_ui_action(
            state,
            UiAction::DropdownSelected { key, index: state.time_window.spec_to_index() as usize },
        ) == state,
        key@ == MODE_KEY@ ==> spec_apply_ui_action(
            state,
            UiAction::DropdownSelected { key, index: state.mode.spec_to_index() as usize },
        ) == state,
        key@ == DISPLAY_KEY@ ==> spec_apply_ui_action(
            state,
            UiAction::DropdownSelected { key, index: state.display_mode.spec_to_index() as usize },
        ) == state,
        key@ == GRID_SUBDIV_KEY@ ==> spec_apply_ui_action(
            state,
            UiAction::DropdownSelected { key, index: state.grid_subdivision.spec_to_index() as usize },
        ) == state,
{
    reveal_strlit("mode");
    reveal_strlit("time-window");
    reveal_strlit("display-mode");
    reveal_strlit("grid-subdivision");
    reveal_strlit("ch1-color");
    reveal_strlit("ch2-color");
    assert(MODE_KEY@.len() == 4 && WINDOW_KEY@.len() == 11 && DISPLAY_KEY@.len() == 12
        && GRID_SUBDIV_KEY@.len() == 16 && CHANNEL_1_COLOR_KEY@.len() == 9 && CHANNEL_2_COLOR_KEY@.len() == 9);
    assert(CHANNEL_1_COLOR_KEY@[2] != CHANNEL_2_COLOR_KEY@[2]);
    if key@ == WINDOW_KEY@ && index <= 3 {
        let next = spec_apply_ui_action(state, UiAction::DropdownSelected { key, index });
        if index == 0 {
            assert(next.time_window == TimeWindow::OneBeat);
        } else if index == 1 {
            assert(next.time_window == TimeWindow::OneBar);
        } else if index == 2 {
            assert(next.time_window == TimeWindow::TwoBars);
        } else {
            assert(next.time_window == TimeWindow::FourBars);
        }
    }
    if key@ == GRID_SUBDIV_KEY@ && index <= 2 {
        let next = spec_apply_ui_action(state, UiAction::DropdownSelected { key, index });
        if index == 0 {
            assert(next.grid_subdivision == GridSubdivision::Div8);
        } else if index == 1 {
            assert(next.grid_subdivision == GridSubdivision::Div16);
        } else {
            assert(next.grid_subdivision == GridSubdivision::Div32);
        }
    }
}

} // verus!
