use xcope::params::XcopeUiState;
use xcope::scope::ScopeFrame;
use xcope::state_io::XcopeStateV1;
use xcope::transport::TransportSnapshot;

#[test]
fn ui_state_compares_zoom_as_ieee_numbers() {
    let base = XcopeUiState::default();
    let mut nan_zoom = base;
    nan_zoom.zoom_x_bits = f32::NAN.to_bits();
    assert_ne!(nan_zoom, nan_zoom);
    let mut zero = base;
    zero.zoom_y_bits = 0.0f32.to_bits();
    let mut negative_zero = base;
    negative_zero.zoom_y_bits = (-0.0f32).to_bits();
    assert_eq!(zero, negative_zero);
    let mut other_color = base;
    other_color.channel_color = [3, 1];
    assert_ne!(base, other_color);
    assert_eq!(base, XcopeUiState::default());
}

#[test]
fn transport_snapshot_compares_tempo_and_position_as_ieee_numbers() {
    let base = TransportSnapshot::default();
    assert_eq!(base, TransportSnapshot::default());
    let nan_position = TransportSnapshot { song_pos_beats_bits: Some(f64::NAN.to_bits()), ..base };
    assert_ne!(nan_position, nan_position);
    let zero = TransportSnapshot { song_pos_beats_bits: Some(0.0f64.to_bits()), ..base };
    let negative_zero = TransportSnapshot { song_pos_beats_bits: Some((-0.0f64).to_bits()), ..base };
    assert_eq!(zero, negative_zero);
    assert_ne!(zero, base);
    let nan_tempo = TransportSnapshot { tempo_bpm_bits: f32::NAN.to_bits(), ..base };
    assert_ne!(nan_tempo, nan_tempo);
}

#[test]
fn state_payload_compares_zoom_as_ieee_numbers() {
    let state = XcopeStateV1::from_ui_state(&XcopeUiState::default());
    assert_eq!(state, state);
    let nan_zoom = XcopeStateV1 { zoom_y_bits: f32::NAN.to_bits(), ..state };
    assert_ne!(nan_zoom, nan_zoom);
    let other_slot = XcopeStateV1 { channel_color: [0, 1, 2, 7], ..state };
    assert_ne!(state, other_slot);
}

#[test]
fn scope_frames_compare_samples_as_ieee_numbers() {
    let zero = ScopeFrame { channel_count: 1, samples: vec![[0.0f32.to_bits(), 0]] };
    let negative_zero = ScopeFrame { channel_count: 1, samples: vec![[(-0.0f32).to_bits(), 0]] };
    assert_eq!(zero, negative_zero);
    let nan = ScopeFrame { channel_count: 1, samples: vec![[f32::NAN.to_bits(), 0]] };
    assert_ne!(nan, nan);
    let longer = ScopeFrame { channel_count: 1, samples: vec![[0, 0], [0, 0]] };
    assert_ne!(zero, longer);
    assert_eq!(ScopeFrame::empty(), ScopeFrame::empty());
}
