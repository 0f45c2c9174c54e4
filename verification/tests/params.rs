use xcope::constants::{
    ParamId, CHANNEL_COLOR_COUNT, ZOOM_MAX_BITS, ZOOM_MIN_BITS, ZOOM_X_DEFAULT_BITS,
};
use xcope::params::{
    apply_param_plain, clamp_color_index, clamp_zoom, param_count, param_steps, param_title,
    param_units, read_param_plain, DisplayMode, GridSubdivision, ScopeMode, TimeWindow,
    XcopeParams, XcopeUiState,
};

fn bits(value: f32) -> u32 {
    value.to_bits()
}

fn value(bits: u32) -> f32 {
    f32::from_bits(bits)
}

#[test]
fn params_clamp_zoom_rejects_non_finite_values() {
    assert_eq!(clamp_zoom(f32::NAN.to_bits()), ZOOM_X_DEFAULT_BITS);
    assert_eq!(clamp_zoom(f32::INFINITY.to_bits()), ZOOM_X_DEFAULT_BITS);
}

#[test]
fn store_clamp_zoom_rejects_non_finite_values() {
    assert_eq!(clamp_zoom(f32::NAN.to_bits()), ZOOM_X_DEFAULT_BITS);
    assert_eq!(clamp_zoom(f32::INFINITY.to_bits()), ZOOM_X_DEFAULT_BITS);
}

#[test]
fn params_apply_snapshot_clamps_zoom_and_colors() {
    let mut params = XcopeParams::new();
    let state = XcopeUiState {
        zoom_x_bits: bits(999.0),
        zoom_y_bits: bits(0.0),
        channel_color: [99, 42],
        ..XcopeUiState::default()
    };
    params.apply_snapshot(&state);

    let snapshot = params.snapshot();
    assert_eq!(value(snapshot.zoom_x_bits), 4.0);
    assert_eq!(value(snapshot.zoom_y_bits), 0.25);
    assert_eq!(snapshot.channel_color[0], CHANNEL_COLOR_COUNT - 1);
    assert_eq!(snapshot.channel_color[1], CHANNEL_COLOR_COUNT - 1);
}

#[test]
fn store_apply_snapshot_clamps_zoom_and_colors() {
    let mut params = XcopeParams::new();
    let state = XcopeUiState {
        zoom_x_bits: bits(999.0),
        zoom_y_bits: bits(0.0),
        channel_color: [99, 42],
        ..XcopeUiState::default()
    };
    params.apply_snapshot(&state);

    let snapshot = params.snapshot();
    assert_eq!(snapshot.zoom_x_bits, ZOOM_MAX_BITS);
    assert_eq!(snapshot.zoom_y_bits, ZOOM_MIN_BITS);
    assert_eq!(snapshot.channel_color[0], CHANNEL_COLOR_COUNT - 1);
    assert_eq!(snapshot.channel_color[1], CHANNEL_COLOR_COUNT - 1);
}

#[test]
fn params_snapshot_roundtrip_preserves_values() {
    let mut params = XcopeParams::new();
    params.set_mode(ScopeMode::TempoLocked);
    params.set_time_window(TimeWindow::FourBars);
    params.set_grid_subdivision(GridSubdivision::Div32);
    params.set_grid_triplet(true);
    params.set_display_mode(DisplayMode::Split);
    params.set_freeze(true);
    params.set_zoom_x(bits(1.5));
    params.set_zoom_y(bits(2.5));
    // Channels 3 and 4 are not visualized: these writes are ignored.
    params.set_channel_visible(3, true);
    params.set_channel_color(2, 5);

    let snapshot = params.snapshot();
    assert_eq!(snapshot.mode, ScopeMode::TempoLocked);
    assert_eq!(snapshot.time_window, TimeWindow::FourBars);
    assert_eq!(snapshot.grid_subdivision, GridSubdivision::Div32);
    assert!(snapshot.grid_triplet);
    assert_eq!(snapshot.display_mode, DisplayMode::Split);
    assert!(snapshot.freeze);
    assert_eq!(value(snapshot.zoom_x_bits), 1.5);
    assert_eq!(value(snapshot.zoom_y_bits), 2.5);
    assert_eq!(snapshot.channel_visible, [true, true]);
    assert_eq!(snapshot.channel_color, [0, 1]);
}

#[test]
fn store_snapshot_roundtrip_preserves_values() {
    let mut params = XcopeParams::new();
    params.set_mode(ScopeMode::TempoLocked);
    params.set_time_window(TimeWindow::FourBars);
    params.set_grid_subdivision(GridSubdivision::Div32);
    params.set_grid_triplet(true);
    params.set_display_mode(DisplayMode::Split);
    params.set_freeze(true);
    params.set_zoom_x(bits(1.5));
    params.set_zoom_y(bits(2.5));
    params.set_channel_visible(1, true);
    params.set_channel_color(1, 5);

    let snapshot = params.snapshot();
    assert_eq!(snapshot.mode, ScopeMode::TempoLocked);
    assert_eq!(snapshot.time_window, TimeWindow::FourBars);
    assert_eq!(snapshot.grid_subdivision, GridSubdivision::Div32);
    assert!(snapshot.grid_triplet);
    assert_eq!(snapshot.display_mode, DisplayMode::Split);
    assert!(snapshot.freeze);
    assert_eq!(value(snapshot.zoom_x_bits), 1.5);
    assert_eq!(value(snapshot.zoom_y_bits), 2.5);
    assert!(snapshot.channel_visible[1]);
    assert_eq!(snapshot.channel_color[1], 5);
}

/// The bit-level zoom clamp agrees with `f32` clamping on a sweep of bit
/// patterns covering every exponent, both signs, infinities and NaNs.
#[test]
fn clamp_zoom_matches_float_clamp() {
    let mut pattern: u32 = 0;
    loop {
        let zoom = f32::from_bits(pattern);
        let expected = if zoom.is_finite() { zoom.clamp(0.25, 4.0) } else { 1.0 };
        assert_eq!(value(clamp_zoom(pattern)), expected, "bits {pattern:#010x}");
        match pattern.checked_add(65_537) {
            Some(next) => pattern = next,
            None => break,
        }
    }
    for zoom in [0.25f32, 4.0, -0.0, 0.0, 0.2499999, 4.0000005, 1.0, -7.5, f32::MIN_POSITIVE] {
        let expected = zoom.clamp(0.25, 4.0);
        assert_eq!(value(clamp_zoom(zoom.to_bits())), expected);
    }
}

#[test]
fn clamp_color_index_limits_to_palette() {
    assert_eq!(clamp_color_index(0), 0);
    assert_eq!(clamp_color_index(7), 7);
    assert_eq!(clamp_color_index(8), 7);
    assert_eq!(clamp_color_index(u32::MAX), 7);
}

#[test]
fn param_ids_roundtrip_through_raw_values() {
    for raw in 0..20u32 {
        match ParamId::from_raw(raw) {
            Some(id) => assert_eq!(id.raw(), raw),
            None => assert!(raw == 0 || raw > 12),
        }
    }
    assert_eq!(ParamId::ZoomX.raw(), 7);
    assert_eq!(ParamId::from_raw(12), Some(ParamId::Channel2Color));
    assert_eq!(param_count(), 12);
}

#[test]
fn enum_indices_roundtrip_and_default_unknown_values() {
    for mode in [ScopeMode::FreeRunning, ScopeMode::TempoLocked] {
        assert_eq!(ScopeMode::from_index(mode.to_index()), mode);
    }
    for window in [TimeWindow::OneBeat, TimeWindow::OneBar, TimeWindow::TwoBars, TimeWindow::FourBars] {
        assert_eq!(TimeWindow::from_index(window.to_index()), window);
    }
    for grid in [GridSubdivision::Div8, GridSubdivision::Div16, GridSubdivision::Div32] {
        assert_eq!(GridSubdivision::from_index(grid.to_index()), grid);
    }
    for display in [DisplayMode::Overlay, DisplayMode::Split] {
        assert_eq!(DisplayMode::from_index(display.to_index()), display);
    }
    assert_eq!(ScopeMode::from_index(9), ScopeMode::FreeRunning);
    assert_eq!(TimeWindow::from_index(9), TimeWindow::OneBar);
    assert_eq!(GridSubdivision::from_index(9), GridSubdivision::Div16);
    assert_eq!(DisplayMode::from_index(9), DisplayMode::Overlay);
}

#[test]
fn default_state_matches_v1_defaults() {
    let state = XcopeUiState::default();
    assert_eq!(state.mode, ScopeMode::FreeRunning);
    assert_eq!(state.time_window, TimeWindow::OneBar);
    assert_eq!(state.grid_subdivision, GridSubdivision::Div16);
    assert!(!state.grid_triplet);
    assert_eq!(state.display_mode, DisplayMode::Overlay);
    assert!(!state.freeze);
    assert_eq!(value(state.zoom_x_bits), 1.0);
    assert_eq!(value(state.zoom_y_bits), 1.0);
    assert_eq!(state.channel_visible, [true, true]);
    assert_eq!(state.channel_color, [0, 1]);
    assert_eq!(XcopeParams::new().snapshot(), state);
}

#[test]
fn plain_values_roundtrip_per_parameter() {
    let mut params = XcopeParams::new();
    assert!(apply_param_plain(&mut params, ParamId::TimeWindow.raw(), 3));
    assert_eq!(read_param_plain(&params, ParamId::TimeWindow.raw()), Some(3));
    assert_eq!(params.snapshot().time_window, TimeWindow::FourBars);

    assert!(apply_param_plain(&mut params, ParamId::ScopeMode.raw(), 1));
    assert_eq!(params.snapshot().mode, ScopeMode::TempoLocked);

    assert!(apply_param_plain(&mut params, ParamId::ZoomX.raw(), bits(3.0625)));
    assert_eq!(read_param_plain(&params, ParamId::ZoomX.raw()), Some(bits(3.0625)));

    assert!(apply_param_plain(&mut params, ParamId::ZoomY.raw(), bits(10.0)));
    assert_eq!(read_param_plain(&params, ParamId::ZoomY.raw()), Some(ZOOM_MAX_BITS));

    assert!(apply_param_plain(&mut params, ParamId::Channel2Color.raw(), 6));
    assert_eq!(read_param_plain(&params, ParamId::Channel2Color.raw()), Some(6));
    assert_eq!(read_param_plain(&params, ParamId::Channel1Color.raw()), Some(0));

    assert!(apply_param_plain(&mut params, ParamId::Channel1Visible.raw(), 0));
    assert_eq!(params.snapshot().channel_visible, [false, true]);

    assert!(!apply_param_plain(&mut params, 0, 1));
    assert!(!apply_param_plain(&mut params, 13, 1));
    assert_eq!(read_param_plain(&params, 13), None);
}

#[test]
fn parameter_metadata_matches_host_labels() {
    assert_eq!(param_title(ParamId::ScopeMode.raw()), "Mode");
    assert_eq!(param_title(ParamId::Channel2Color.raw()), "Ch2 Color");
    assert_eq!(param_title(99), "Unknown");
    assert_eq!(param_units(ParamId::ZoomY.raw()), "x");
    assert_eq!(param_units(ParamId::Freeze.raw()), "");
    assert_eq!(param_steps(ParamId::TimeWindow.raw()), 3);
    assert_eq!(param_steps(ParamId::GridSubdivision.raw()), 2);
    assert_eq!(param_steps(ParamId::Channel1Color.raw()), 7);
    assert_eq!(param_steps(ParamId::ZoomX.raw()), 0);
    assert_eq!(param_steps(ParamId::Channel2Visible.raw()), 1);
}
