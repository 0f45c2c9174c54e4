use xcope::params::GridSubdivision;
use xcope::transport::{
    sanitize_tempo, sanitize_time_sig_denom, sanitize_time_sig_num, subdivisions_for_grid,
    TransportRuntime, TransportSnapshot,
};

#[test]
fn grid_subdivisions_expand_in_triplet_mode() {
    assert_eq!(subdivisions_for_grid(GridSubdivision::Div8, false), 2);
    assert_eq!(subdivisions_for_grid(GridSubdivision::Div8, true), 3);
    assert_eq!(subdivisions_for_grid(GridSubdivision::Div16, true), 6);
}

#[test]
fn grid_subdivisions_without_triplets() {
    assert_eq!(subdivisions_for_grid(GridSubdivision::Div16, false), 4);
    assert_eq!(subdivisions_for_grid(GridSubdivision::Div32, false), 8);
    assert_eq!(subdivisions_for_grid(GridSubdivision::Div32, true), 12);
}

#[test]
fn transport_runtime_roundtrip() {
    let mut runtime = TransportRuntime::new();
    let snapshot = TransportSnapshot {
        tempo_bpm_bits: 132.0f32.to_bits(),
        is_playing: true,
        song_pos_beats_bits: Some(25.25f64.to_bits()),
        time_sig_num: 7,
        time_sig_denom: 8,
    };
    runtime.update(snapshot);
    assert_eq!(runtime.snapshot(), snapshot);
}

#[test]
fn transport_runtime_sanitizes_invalid_values() {
    let mut runtime = TransportRuntime::new();
    assert_eq!(runtime.snapshot(), TransportSnapshot::default());
    runtime.update(TransportSnapshot {
        tempo_bpm_bits: f32::NAN.to_bits(),
        is_playing: false,
        song_pos_beats_bits: None,
        time_sig_num: 0,
        time_sig_denom: 3,
    });
    let snapshot = runtime.snapshot();
    assert_eq!(f32::from_bits(snapshot.tempo_bpm_bits), 120.0);
    assert_eq!(snapshot.song_pos_beats_bits, None);
    assert_eq!(snapshot.time_sig_num, 1);
    assert_eq!(snapshot.time_sig_denom, 4);
}

#[test]
fn tempo_sanitizing_matches_float_rule() {
    for tempo in [0.5f32, 1.0, 1.0000001, 60.0, 999.0, -120.0, f32::INFINITY, f32::NAN, 0.0, -0.0] {
        let expected = if tempo.is_finite() && tempo > 1.0 { tempo } else { 120.0 };
        assert_eq!(f32::from_bits(sanitize_tempo(tempo.to_bits())), expected);
    }
}

#[test]
fn time_signature_sanitizing() {
    assert_eq!(sanitize_time_sig_num(0), 1);
    assert_eq!(sanitize_time_sig_num(33), 32);
    assert_eq!(sanitize_time_sig_num(7), 7);
    for denom in [1u16, 2, 4, 8, 16] {
        assert_eq!(sanitize_time_sig_denom(denom), denom);
    }
    assert_eq!(sanitize_time_sig_denom(0), 4);
    assert_eq!(sanitize_time_sig_denom(32), 4);
}

#[test]
fn visible_window_is_clamped_to_scope_bounds() {
    assert_eq!(xcope::transport::clamp_visible_window(0), 64);
    assert_eq!(xcope::transport::clamp_visible_window(63), 64);
    assert_eq!(xcope::transport::clamp_visible_window(4800), 4800);
    assert_eq!(xcope::transport::clamp_visible_window(262_144), 262_144);
    assert_eq!(xcope::transport::clamp_visible_window(1_000_000), 262_144);
}
