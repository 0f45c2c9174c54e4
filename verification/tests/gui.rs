use xcope::constants::{WINDOW_HEIGHT, WINDOW_WIDTH, ZOOM_X_DEFAULT_BITS, ZOOM_Y_DEFAULT_BITS};
use xcope::gui::freeze::GuiRuntime;
use xcope::gui::layout::{
    slot_weight, CHANNEL_2_VISIBLE_KEY, FREEZE_KEY, GRID_SUBDIV_KEY, MODE_KEY, RESET_ZOOM_KEY,
    ZOOM_Y_KEY,
};
use xcope::gui::{
    apply_ui_action, constrained_host_size, preferred_window_size, resolve_layout_geometry, Size,
    UiAction,
};
use xcope::params::{GridSubdivision, ScopeMode, XcopeParams};
use xcope::scope::ScopeFrame;

#[test]
fn preferred_window_size_matches_constants() {
    assert_eq!(preferred_window_size(), (WINDOW_WIDTH, WINDOW_HEIGHT));
}

#[test]
fn resolve_layout_geometry_clamps_to_minimum_window_size() {
    let geometry = resolve_layout_geometry(Size::default());
    assert_eq!(geometry.root_size.width, WINDOW_WIDTH);
    assert_eq!(geometry.root_size.height, WINDOW_HEIGHT);
    assert!(geometry.scope_height > 0);
}

#[test]
fn layout_regions_tile_the_root_height() {
    for height in [0u32, 500, 501, 700, 999, 1080, 4321, u32::MAX] {
        let geometry = resolve_layout_geometry(Size { width: 1200, height });
        assert!(geometry.toolbar_height >= 1 && geometry.scope_height >= 1);
        assert_eq!(
            geometry.toolbar_height as u64 + geometry.scope_height as u64 + geometry.bottom_bar_height as u64,
            geometry.root_size.height as u64
        );
    }
    let geometry = resolve_layout_geometry(Size { width: 1200, height: 700 });
    assert_eq!(geometry.root_size, Size { width: 1200, height: 700 });
    assert_eq!(geometry.toolbar_height, 117);
    assert_eq!(geometry.bottom_bar_height, 134);
    assert_eq!(geometry.scope_height, 449);
}

#[test]
fn host_sizes_are_held_to_the_minimum() {
    assert_eq!(constrained_host_size(Size { width: 100, height: 900 }), Size { width: WINDOW_WIDTH, height: 900 });
    assert_eq!(slot_weight(0), 1);
    assert_eq!(slot_weight(70_000), 65535);
    assert_eq!(slot_weight(320), 320);
}

#[test]
fn reducer_updates_dropdown_backed_state() {
    let mut params = XcopeParams::new();
    let changed = apply_ui_action(
        &mut params,
        UiAction::DropdownSelected { key: MODE_KEY.to_string(), index: 1 },
    );
    assert!(!changed);
    assert_eq!(params.snapshot().mode, ScopeMode::TempoLocked);
}

#[test]
fn reducer_reports_freeze_toggle_changes() {
    let mut params = XcopeParams::new();
    let changed = apply_ui_action(
        &mut params,
        UiAction::ToggleChanged { key: FREEZE_KEY.to_string(), value: true },
    );
    assert!(changed);
    assert!(params.snapshot().freeze);
}

#[test]
fn reducer_resets_zoom() {
    let mut params = XcopeParams::new();
    params.set_zoom_x(3.0f32.to_bits());
    params.set_zoom_y(2.0f32.to_bits());
    let _ = apply_ui_action(&mut params, UiAction::ButtonPressed { key: RESET_ZOOM_KEY.to_string() });
    let snapshot = params.snapshot();
    assert_eq!(snapshot.zoom_x_bits, ZOOM_X_DEFAULT_BITS);
    assert_eq!(snapshot.zoom_y_bits, ZOOM_Y_DEFAULT_BITS);
}

#[test]
fn reducer_handles_sliders_toggles_and_unknown_keys() {
    let mut params = XcopeParams::new();
    apply_ui_action(&mut params, UiAction::SliderChanged { key: ZOOM_Y_KEY.to_string(), value_bits: 8.0f32.to_bits() });
    assert_eq!(f32::from_bits(params.snapshot().zoom_y_bits), 4.0);
    apply_ui_action(&mut params, UiAction::ToggleChanged { key: CHANNEL_2_VISIBLE_KEY.to_string(), value: false });
    assert_eq!(params.snapshot().channel_visible, [true, false]);
    apply_ui_action(&mut params, UiAction::DropdownSelected { key: GRID_SUBDIV_KEY.to_string(), index: 0 });
    assert_eq!(params.snapshot().grid_subdivision, GridSubdivision::Div8);
    let before = params.snapshot();
    let changed = apply_ui_action(&mut params, UiAction::DropdownSelected { key: "no-such-control".to_string(), index: 4 });
    assert!(!changed);
    assert_eq!(params.snapshot(), before);
}

#[test]
fn reducer_selects_channel_colors() {
    let mut params = XcopeParams::new();
    let changed = apply_ui_action(&mut params, UiAction::DropdownSelected { key: "ch1-color".to_string(), index: 4 });
    assert!(!changed);
    assert_eq!(params.snapshot().channel_color, [4, 1]);
    apply_ui_action(&mut params, UiAction::DropdownSelected { key: "ch2-color".to_string(), index: 6 });
    assert_eq!(params.snapshot().channel_color, [4, 6]);
    apply_ui_action(&mut params, UiAction::DropdownSelected { key: "ch2-color".to_string(), index: 99 });
    assert_eq!(params.snapshot().channel_color, [4, 7]);
}

fn frame(values: &[u32]) -> ScopeFrame {
    ScopeFrame { channel_count: 1, samples: values.iter().map(|v| [*v, 0]).collect() }
}

#[test]
fn freeze_holds_the_displayed_frame() {
    let mut runtime = GuiRuntime::new();
    assert_eq!(runtime.present_frame(frame(&[1, 2]), false), frame(&[1, 2]));
    let held = runtime.present_frame(frame(&[3, 4]), true);
    assert_eq!(held, frame(&[3, 4]));
    assert_eq!(runtime.present_frame(frame(&[5, 6]), true), frame(&[3, 4]));
    assert_eq!(runtime.present_frame(frame(&[7, 8]), false), frame(&[7, 8]));
}

#[test]
fn freezing_through_the_editor_captures_the_last_live_frame() {
    let mut runtime = GuiRuntime::new();
    runtime.present_frame(frame(&[1]), false);
    runtime.after_action(true, true);
    assert_eq!(runtime.present_frame(frame(&[2]), true), frame(&[1]));
    runtime.after_action(false, true);
    assert_eq!(runtime.present_frame(frame(&[3]), false), frame(&[3]));
}
