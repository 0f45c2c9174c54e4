use xcope::params::{DisplayMode, GridSubdivision, ScopeMode, TimeWindow, XcopeParams};
use xcope::state_io::{decode_state_payload, encode_state_payload, XcopeStateV1, PAYLOAD_LEN_V1};

fn bits(value: f32) -> u32 {
    value.to_bits()
}

#[test]
fn state_roundtrip_preserves_fields() {
    let state = XcopeStateV1 {
        mode: ScopeMode::TempoLocked,
        time_window: TimeWindow::FourBars,
        grid_subdivision: GridSubdivision::Div32,
        grid_triplet: true,
        display_mode: DisplayMode::Split,
        freeze: true,
        zoom_x_bits: bits(1.75),
        zoom_y_bits: bits(2.25),
        channel_visible: [true, false, true, true],
        channel_color: [1, 3, 5, 7],
    };

    let encoded = state.encode();
    let decoded = XcopeStateV1::decode(&encoded).expect("state should decode");
    assert_eq!(decoded, state);
}

#[test]
fn state_decode_rejects_invalid_length() {
    let err = XcopeStateV1::decode(&[0u8; 3]).expect_err("decode should fail");
    assert!(err.contains("invalid payload length"));
}

#[test]
fn decode_state_payload_applies_snapshot() {
    let mut params = XcopeParams::new();
    let state = XcopeStateV1 {
        mode: ScopeMode::TempoLocked,
        time_window: TimeWindow::TwoBars,
        grid_subdivision: GridSubdivision::Div8,
        grid_triplet: true,
        display_mode: DisplayMode::Split,
        freeze: true,
        zoom_x_bits: bits(1.2),
        zoom_y_bits: bits(2.4),
        channel_visible: [true, true, true, false],
        channel_color: [0, 1, 2, 3],
    };

    decode_state_payload(&mut params, &state.encode()).expect("payload should apply");
    let snapshot = params.snapshot();
    assert_eq!(snapshot.mode, ScopeMode::TempoLocked);
    assert_eq!(snapshot.time_window, TimeWindow::TwoBars);
    assert_eq!(snapshot.grid_subdivision, GridSubdivision::Div8);
    assert!(snapshot.grid_triplet);
    assert_eq!(snapshot.display_mode, DisplayMode::Split);
    assert!(snapshot.freeze);
    assert_eq!(f32::from_bits(snapshot.zoom_x_bits), 1.2);
    assert_eq!(f32::from_bits(snapshot.zoom_y_bits), 2.4);
    // The store shows the two visual channels of the four persisted slots.
    assert_eq!(snapshot.channel_visible, [true, true]);
}

#[test]
fn project_reload_roundtrip_restores_ui_state() {
    let mut source = XcopeParams::new();
    source.set_mode(ScopeMode::TempoLocked);
    source.set_time_window(TimeWindow::FourBars);
    source.set_grid_triplet(true);
    source.set_display_mode(DisplayMode::Split);
    source.set_freeze(true);
    source.set_zoom_x(bits(2.0));
    source.set_zoom_y(bits(1.5));
    source.set_channel_visible(0, true);
    source.set_channel_visible(1, false);
    source.set_channel_color(0, 3);
    source.set_channel_color(1, 6);

    let payload = encode_state_payload(&source);
    let mut reloaded = XcopeParams::new();
    decode_state_payload(&mut reloaded, &payload).expect("saved state should decode");

    assert_eq!(reloaded.snapshot(), source.snapshot());
}

#[test]
fn encoded_payload_has_documented_layout() {
    let state = XcopeStateV1 {
        mode: ScopeMode::TempoLocked,
        time_window: TimeWindow::TwoBars,
        grid_subdivision: GridSubdivision::Div32,
        grid_triplet: false,
        display_mode: DisplayMode::Split,
        freeze: true,
        zoom_x_bits: bits(2.0),
        zoom_y_bits: bits(100.0),
        channel_visible: [true, false, false, true],
        channel_color: [1, 9, 2, 3],
    };
    let payload = state.encode();
    assert_eq!(payload.len(), PAYLOAD_LEN_V1);
    assert_eq!(&payload[0..6], &[1, 2, 2, 0, 1, 1]);
    assert_eq!(&payload[6..10], &2.0f32.to_le_bytes());
    assert_eq!(&payload[10..14], &4.0f32.to_le_bytes());
    assert_eq!(&payload[14..18], &[1, 0, 0, 1]);
    assert_eq!(&payload[18..22], &[1, 7, 2, 3]);
}

#[test]
fn decode_clamps_out_of_range_fields() {
    let mut payload = vec![9u8, 9, 9, 5, 9, 0];
    payload.extend_from_slice(&f32::NAN.to_le_bytes());
    payload.extend_from_slice(&(-3.0f32).to_le_bytes());
    payload.extend_from_slice(&[0, 2, 0, 0, 200, 7, 8, 0]);
    let state = XcopeStateV1::decode(&payload).expect("22 bytes decode");
    assert_eq!(state.mode, ScopeMode::FreeRunning);
    assert_eq!(state.time_window, TimeWindow::OneBar);
    assert_eq!(state.grid_subdivision, GridSubdivision::Div16);
    assert!(state.grid_triplet);
    assert_eq!(state.display_mode, DisplayMode::Overlay);
    assert!(!state.freeze);
    assert_eq!(f32::from_bits(state.zoom_x_bits), 1.0);
    assert_eq!(f32::from_bits(state.zoom_y_bits), 0.25);
    assert_eq!(state.channel_visible, [false, true, false, false]);
    assert_eq!(state.channel_color, [7, 7, 7, 0]);
}

#[test]
fn decode_error_names_both_lengths() {
    assert_eq!(
        XcopeStateV1::decode(&[0u8; 3]),
        Err("invalid payload length: expected 22, got 3".to_string())
    );
    assert_eq!(
        XcopeStateV1::decode(&[0u8; 230]),
        Err("invalid payload length: expected 22, got 230".to_string())
    );
    assert_eq!(
        XcopeStateV1::decode(&[]),
        Err("invalid payload length: expected 22, got 0".to_string())
    );
}

#[test]
fn refused_payload_leaves_store_unchanged() {
    let mut params = XcopeParams::new();
    params.set_freeze(true);
    let before = params.snapshot();
    assert!(decode_state_payload(&mut params, &[1u8; 21]).is_err());
    assert_eq!(params.snapshot(), before);
}

#[test]
fn ui_state_conversion_fills_extra_slots() {
    let persisted = XcopeStateV1::default();
    assert_eq!(persisted.channel_visible, [true, true, false, false]);
    assert_eq!(persisted.channel_color, [0, 1, 2, 3]);
    assert_eq!(persisted.to_ui_state(), XcopeParams::new().snapshot());
}
