//! Versioned state payload format.
//!
//! A V1 payload is 22 bytes:
//!
//! | offset | size | field                                   |
//! |--------|------|-----------------------------------------|
//! | 0      | 1    | scope mode index                        |
//! | 1      | 1    | time window index                       |
//! | 2      | 1    | grid subdivision index                  |
//! | 3      | 1    | grid triplet flag (non-zero is set)     |
//! | 4      | 1    | display mode index                      |
//! | 5      | 1    | freeze flag (non-zero is set)           |
//! | 6      | 4    | horizontal zoom, `f32` little-endian    |
//! | 10     | 4    | vertical zoom, `f32` little-endian      |
//! | 14     | 4    | channel visibility flags, one byte each |
//! | 18     | 4    | channel palette indices, one byte each  |
//!
//! The format has four channel slots; the oscilloscope shows the first
//! [`MAX_VISUAL_CHANNELS`](crate::constants::MAX_VISUAL_CHANNELS) of them.

use vstd::bytes::{
    lemma_auto_spec_u32_to_from_le_bytes, spec_u32_from_le_bytes, spec_u32_to_le_bytes,
    u32_from_le_bytes, u32_to_le_bytes,
};
use vstd::prelude::*;
use vstd::slice::slice_subrange;
use vstd::std_specs::cmp::PartialEqSpecImpl;

use crate::params::store::{
    lemma_clamp_color_index, lemma_clamp_zoom, spec_clamp_color_index, spec_clamp_zoom,
    spec_normalize_ui_state,
};
use crate::params::{
    clamp_color_index, clamp_zoom, DisplayMode, GridSubdivision, ScopeMode, TimeWindow,
    XcopeParams, XcopeUiState,
};
use crate::ieee754::{f32_bits_ieee_eq, f32_ieee_eq};
use crate::text::{push_decimal, spec_decimal};

verus! {

/// Length of a V1 payload in bytes.
pub const PAYLOAD_LEN_V1: usize = 22;

/// Number of channel slots in a V1 payload.
pub const STATE_CHANNEL_SLOTS: usize = 4;

/// Persisted V1 state payload.
///
/// Two payload states are equal when their zooms are equal as IEEE numbers
/// and their other fields are equal.
#[derive(Clone, Copy, Debug)]
pub struct XcopeStateV1 {
    /// Scope mode.
    pub mode: ScopeMode,
    /// Visible time window.
    pub time_window: TimeWindow,
    /// Grid subdivision selector.
    pub grid_subdivision: GridSubdivision,
    /// Triplet subdivision toggle.
    pub grid_triplet: bool,
    /// Display mode selector.
    pub display_mode: DisplayMode,
    /// Freeze toggle.
    pub freeze: bool,
    /// Horizontal zoom (`f32` bits).
    pub zoom_x_bits: u32,
    /// Vertical zoom (`f32` bits).
    pub zoom_y_bits: u32,
    /// Per-slot visibility flags.
    pub channel_visible: [bool; STATE_CHANNEL_SLOTS],
    /// Per-slot color indices.
    pub channel_color: [u32; STATE_CHANNEL_SLOTS],
}

impl PartialEq for XcopeStateV1 {
    fn eq(&self, other: &Self) -> (equal: bool) {
        let slots_equal = self.channel_visible[0] == other.channel_visible[0]
            && self.channel_visible[1] == other.channel_visible[1] && self.channel_visible[2]
            == other.channel_visible[2] && self.channel_visible[3] == other.channel_visible[3]
            && self.channel_color[0] == other.channel_color[0] && self.channel_color[1]
            == other.channel_color[1] && self.channel_color[2] == other.channel_color[2]
            && self.channel_color[3] == other.channel_color[3];
        self.mode == other.mode && self.time_window == other.time_window && self.grid_subdivision
            == other.grid_subdivision && self.grid_triplet == other.grid_triplet && self.display_mode
            == other.display_mode && self.freeze == other.freeze && f32_bits_ieee_eq(
            self.zoom_x_bits,
            other.zoom_x_bits,
        ) && f32_bits_ieee_eq(self.zoom_y_bits, other.zoom_y_bits) && slots_equal
    }
}

impl PartialEqSpecImpl for XcopeStateV1 {
    open spec fn obeys_eq_spec() -> bool {
        true
    }

    open spec fn eq_spec(&self, other: &Self) -> bool {
        &&& self.mode == other.mode
        &&& self.time_window == other.time_window
        &&& self.grid_subdivision == other.grid_subdivision
        &&& self.grid_triplet == other.grid_triplet
        &&& self.display_mode == other.display_mode
        &&& self.freeze == other.freeze
        &&& f32_ieee_eq(self.zoom_x_bits, other.zoom_x_bits)
        &&& f32_ieee_eq(self.zoom_y_bits, other.zoom_y_bits)
        &&& forall|k: int|
            0 <= k < STATE_CHANNEL_SLOTS ==> #[trigger] self.channel_visible[k]
                == other.channel_visible[k] && self.channel_color[k] == other.channel_color[k]
    }
}

/// One byte for a flag.
pub open spec fn flag_byte(flag: bool) -> u8 {
    if flag {
        1
    } else {
        0
    }
}

/// The first six bytes of a V1 payload: indices and flags, one byte each.
pub open spec fn spec_encode_selectors(state: XcopeStateV1) -> Seq<u8> {
    seq![
        state.mode.spec_to_index() as u8,
        state.time_window.spec_to_index() as u8,
        state.grid_subdivision.spec_to_index() as u8,
        flag_byte(state.grid_triplet),
        state.display_mode.spec_to_index() as u8,
        flag_byte(state.freeze),
    ]
}

/// The last eight bytes of a V1 payload: slot flags, then clamped slot colors.
pub open spec fn spec_encode_channels(state: XcopeStateV1) -> Seq<u8> {
    seq![
        flag_byte(state.channel_visible[0]),
        flag_byte(state.channel_visible[1]),
        flag_byte(state.channel_visible[2]),
        flag_byte(state.channel_visible[3]),
        spec_clamp_color_index(state.channel_color[0]) as u8,
        spec_clamp_color_index(state.channel_color[1]) as u8,
        spec_clamp_color_index(state.channel_color[2]) as u8,
        spec_clamp_color_index(state.channel_color[3]) as u8,
    ]
}

/// The bytes of one V1 payload: indices and flags one byte each, zoom values
/// clamped and little-endian, colors clamped to the palette.
pub open spec fn spec_encode(state: XcopeStateV1) -> Seq<u8> {
    spec_encode_selectors(state) + spec_u32_to_le_bytes(spec_clamp_zoom(state.zoom_x_bits))
        + spec_u32_to_le_bytes(spec_clamp_zoom(state.zoom_y_bits)) + spec_encode_channels(state)
}

/// The state read from a 22-byte payload: unknown indices decode as the
/// defaults of their enumerations, non-zero flag bytes as set, zoom values
/// and colors clamped.
pub open spec fn spec_decode(payload: Seq<u8>) -> XcopeStateV1 {
    XcopeStateV1 {
        mode: ScopeMode::spec_from_index(payload[0] as u32),
        time_window: TimeWindow::spec_from_index(payload[1] as u32),
        grid_subdivision: GridSubdivision::spec_from_index(payload[2] as u32),
        grid_triplet: payload[3] != 0,
        display_mode: DisplayMode::spec_from_index(payload[4] as u32),
        freeze: payload[5] != 0,
        zoom_x_bits: spec_clamp_zoom(spec_u32_from_le_bytes(payload.subrange(6, 10))),
        zoom_y_bits: spec_clamp_zoom(spec_u32_from_le_bytes(payload.subrange(10, 14))),
        channel_visible: [payload[14] != 0, payload[15] != 0, payload[16] != 0, payload[17] != 0],
        channel_color: [
            spec_clamp_color_index(payload[18] as u32),
            spec_clamp_color_index(payload[19] as u32),
            spec_clamp_color_index(payload[20] as u32),
            spec_clamp_color_index(payload[21] as u32),
        ],
    }
}

/// Message of the error for a payload of the wrong length.
pub open spec fn spec_length_error(len: nat) -> Seq<char> {
    "invalid payload length: expected "@ + spec_decimal(PAYLOAD_LEN_V1 as nat) + ", got "@
        + spec_decimal(len)
}

/// The persisted state of a UI state: the visual channels fill the first
/// slots, the remaining slots are hidden with palette colors 2 and 3; zoom
/// and colors are clamped.
pub open spec fn spec_from_ui_state(state: XcopeUiState) -> XcopeStateV1 {
    XcopeStateV1 {
        mode: state.mode,
        time_window: state.time_window,
        grid_subdivision: state.grid_subdivision,
        grid_triplet: state.grid_triplet,
        display_mode: state.display_mode,
        freeze: state.freeze,
        zoom_x_bits: spec_clamp_zoom(state.zoom_x_bits),
        zoom_y_bits: spec_clamp_zoom(state.zoom_y_bits),
        channel_visible: [state.channel_visible[0], state.channel_visible[1], false, false],
        channel_color: [
            spec_clamp_color_index(state.channel_color[0]),
            spec_clamp_color_index(state.channel_color[1]),
            2,
            3,
        ],
    }
}

/// The UI state of a persisted state: the first slots, zoom and colors
/// clamped.
pub open spec fn spec_to_ui_state(state: XcopeStateV1) -> XcopeUiState {
    XcopeUiState {
        mode: state.mode,
        time_window: state.time_window,
        grid_subdivision: state.grid_subdivision,
        grid_triplet: state.grid_triplet,
        display_mode: state.display_mode,
        freeze: state.freeze,
        zoom_x_bits: spec_clamp_zoom(state.zoom_x_bits),
        zoom_y_bits: spec_clamp_zoom(state.zoom_y_bits),
        channel_visible: [state.channel_visible[0], state.channel_visible[1]],
        channel_color: [
            spec_clamp_color_index(state.channel_color[0]),
            spec_clamp_color_index(state.channel_color[1]),
        ],
    }
}

/// A persisted state with every zoom and color already clamped.
pub open spec fn spec_state_normalized(state: XcopeStateV1) -> bool {
    &&& spec_clamp_zoom(state.zoom_x_bits) == state.zoom_x_bits
    &&& spec_clamp_zoom(state.zoom_y_bits) == state.zoom_y_bits
    &&& forall|i: int| 0 <= i < 4 ==> spec_clamp_color_index(#[trigger] state.channel_color[i]) == state.channel_color[i]
}

/// A persisted state with zoom values and colors clamped.
pub open spec fn spec_normalize_state(state: XcopeStateV1) -> XcopeStateV1 {
    XcopeStateV1 {
        zoom_x_bits: spec_clamp_zoom(state.zoom_x_bits),
        zoom_y_bits: spec_clamp_zoom(state.zoom_y_bits),
        channel_color: [
            spec_clamp_color_index(state.channel_color[0]),
            spec_clamp_color_index(state.channel_color[1]),
            spec_clamp_color_index(state.channel_color[2]),
            spec_clamp_color_index(state.channel_color[3]),
        ],
        ..state
    }
}

/// Decoding an encoded payload gives the state back, with zoom values and
/// colors clamped; encoded payloads always have the V1 length.
pub proof fn lemma_encode_decode_roundtrip(state: XcopeStateV1)
    ensures
        spec_encode(state).len() == PAYLOAD_LEN_V1,
        spec_decode(spec_encode(state)) == spec_normalize_state(state),
{
    let zx = spec_clamp_zoom(state.zoom_x_bits);
    let zy = spec_clamp_zoom(state.zoom_y_bits);
    lemma_le_bytes(zx);
    lemma_le_bytes(zy);
    lemma_clamp_zoom(state.zoom_x_bits);
    lemma_clamp_zoom(state.zoom_y_bits);
    lemma_clamp_color_index(state.channel_color[0]);
    lemma_clamp_color_index(state.channel_color[1]);
    lemma_clamp_color_index(state.channel_color[2]);
    lemma_clamp_color_index(state.channel_color[3]);
    let bytes = spec_encode(state);
    assert(bytes.subrange(6, 10) =~= spec_u32_to_le_bytes(zx));
    assert(bytes.subrange(10, 14) =~= spec_u32_to_le_bytes(zy));
    let decoded = spec_decode(bytes);
    let expected = spec_normalize_state(state);
    assert(decoded.channel_visible =~= expected.channel_visible);
    assert(decoded.channel_color =~= expected.channel_color);
}

/// Saving a UI state and restoring it gives back the state as the parameter
/// store keeps it (zoom values and colors clamped): project reload restores
/// every user-facing setting.
pub proof fn lemma_save_restore_roundtrip(state: XcopeUiState)
    ensures
        spec_normalize_ui_state(spec_to_ui_state(spec_decode(spec_encode(spec_from_ui_state(state)))))
            == spec_normalize_ui_state(state),
{
    let persisted = spec_from_ui_state(state);
    lemma_encode_decode_roundtrip(persisted);
    lemma_clamp_zoom(state.zoom_x_bits);
    lemma_clamp_zoom(state.zoom_y_bits);
    lemma_clamp_color_index(state.channel_color[0]);
    lemma_clamp_color_index(state.channel_color[1]);
    let restored = spec_normalize_ui_state(spec_to_ui_state(spec_decode(spec_encode(persisted))));
    assert(restored.channel_visible =~= state.channel_visible);
    assert(restored.channel_color =~= spec_normalize_ui_state(state).channel_color);
}

/// Project reload: the payload saved from a parameter store has the V1
/// length, and applying it to any store reproduces the saved store's state.
pub proof fn lemma_project_reload(source: &XcopeParams)
    ensures
        spec_encode(spec_from_ui_state(source@)).len() == PAYLOAD_LEN_V1,
        spec_normalize_ui_state(
            spec_to_ui_state(spec_decode(spec_encode(spec_from_ui_state(source@)))),
        ) == source@,
{
    lemma_encode_decode_roundtrip(spec_from_ui_state(source@));
    lemma_save_restore_roundtrip(source@);
    source.lemma_view_normalized();
}

fn flag_to_byte(flag: bool) -> (byte: u8)
    ensures
        byte == flag_byte(flag),
{
    if flag {
        1
    } else {
        0
    }
}

proof fn lemma_le_bytes(value: u32)
    ensures
        spec_u32_to_le_bytes(value).len() == 4,
        spec_u32_from_le_bytes(spec_u32_to_le_bytes(value)) == value,
{
    lemma_auto_spec_u32_to_from_le_bytes();
    assert(spec_u32_to_le_bytes(value).len() == 4);
}

fn push_u32_le(out: &mut Vec<u8>, value: u32)
    ensures
        final(out)@ == old(out)@ + spec_u32_to_le_bytes(value),
        final(out)@.len() == old(out)@.len() + 4,
{
    let bytes = u32_to_le_bytes(value);
    out.push(bytes[0]);
    out.push(bytes[1]);
    out.push(bytes[2]);
    out.push(bytes[3]);
    proof {
        assert(final(out)@ =~= old(out)@ + bytes@);
    }
}

impl Default for XcopeStateV1 {
    fn default() -> (state: Self)
        ensures
            state == spec_from_ui_state(XcopeUiState::spec_default()),
    {
        Self::from_ui_state(&XcopeUiState::default())
    }
}

impl XcopeStateV1 {
    /// Create persisted state from one runtime UI snapshot.
    pub fn from_ui_state(state: &XcopeUiState) -> (persisted: Self)
        ensures
            persisted == spec_from_ui_state(*state),
    {
        XcopeStateV1 {
            mode: state.mode,
            time_window: state.time_window,
            grid_subdivision: state.grid_subdivision,
            grid_triplet: state.grid_triplet,
            display_mode: state.display_mode,
            freeze: state.freeze,
            zoom_x_bits: clamp_zoom(state.zoom_x_bits),
            zoom_y_bits: clamp_zoom(state.zoom_y_bits),
            channel_visible: [state.channel_visible[0], state.channel_visible[1], false, false],
            channel_color: [
                clamp_color_index(state.channel_color[0]),
                clamp_color_index(state.channel_color[1]),
                2,
                3,
            ],
        }
    }

    /// Convert persisted state to runtime UI snapshot.
    pub fn to_ui_state(&self) -> (state: XcopeUiState)
        ensures
            state == spec_to_ui_state(*self),
    {
        XcopeUiState {
            mode: self.mode,
            time_window: self.time_window,
            grid_subdivision: self.grid_subdivision,
            grid_triplet: self.grid_triplet,
            display_mode: self.display_mode,
            freeze: self.freeze,
            zoom_x_bits: clamp_zoom(self.zoom_x_bits),
            zoom_y_bits: clamp_zoom(self.zoom_y_bits),
            channel_visible: [self.channel_visible[0], self.channel_visible[1]],
            channel_color: [
                clamp_color_index(self.channel_color[0]),
                clamp_color_index(self.channel_color[1]),
            ],
        }
    }

    /// Encode this state into a fixed-size payload.
    pub fn encode(&self) -> (payload: Vec<u8>)
        ensures
            payload@ == spec_encode(*self),
            payload@.len() == PAYLOAD_LEN_V1,
    {
        let mut out: Vec<u8> = Vec::new();
        out.push(self.mode.to_index() as u8);
        out.push(self.time_window.to_index() as u8);
        out.push(self.grid_subdivision.to_index() as u8);
        out.push(flag_to_byte(self.grid_triplet));
        out.push(self.display_mode.to_index() as u8);
        out.push(flag_to_byte(self.freeze));
        assert(out@ =~= spec_encode_selectors(*self));
        let zoom_x = clamp_zoom(self.zoom_x_bits);
        let zoom_y = clamp_zoom(self.zoom_y_bits);
        push_u32_le(&mut out, zoom_x);
        push_u32_le(&mut out, zoom_y);
        let ghost zoomed = out@;
        let mut channels: Vec<u8> = Vec::new();
        channels.push(flag_to_byte(self.channel_visible[0]));
        channels.push(flag_to_byte(self.channel_visible[1]));
        channels.push(flag_to_byte(self.channel_visible[2]));
        channels.push(flag_to_byte(self.channel_visible[3]));
        channels.push(clamp_color_index(self.channel_color[0]) as u8);
        channels.push(clamp_color_index(self.channel_color[1]) as u8);
        channels.push(clamp_color_index(self.channel_color[2]) as u8);
        channels.push(clamp_color_index(self.channel_color[3]) as u8);
        assert(channels@ =~= spec_encode_channels(*self));
        out.append(&mut channels);
        proof {
            lemma_le_bytes(zoom_x);
            lemma_le_bytes(zoom_y);
        }
        out
    }

    /// Decode one state payload; a payload that is not exactly
    /// [`PAYLOAD_LEN_V1`] bytes long is refused with a message naming both
    /// lengths.
    pub fn decode(payload: &[u8]) -> (result: Result<Self, String>)
        ensures
            result is Ok <==> payload@.len() == PAYLOAD_LEN_V1,
            result matches Ok(state) ==> state == spec_decode(payload@),
            result matches Err(message) ==> message@ == spec_length_error(payload@.len()),
    {
        if payload.len() != PAYLOAD_LEN_V1 {
            let mut message = String::from_str("invalid payload length: expected ");
            push_decimal(&mut message, PAYLOAD_LEN_V1);
            message.append(", got ");
            push_decimal(&mut message, payload.len());
            return Err(message);
        }
        let mode = ScopeMode::from_index(payload[0] as u32);
        let time_window = TimeWindow::from_index(payload[1] as u32);
        let grid_subdivision = GridSubdivision::from_index(payload[2] as u32);
        let grid_triplet = payload[3] != 0;
        let display_mode = DisplayMode::from_index(payload[4] as u32);
        let freeze = payload[5] != 0;
        let zoom_x_bits = clamp_zoom(u32_from_le_bytes(slice_subrange(payload, 6, 10)));
        let zoom_y_bits = clamp_zoom(u32_from_le_bytes(slice_subrange(payload, 10, 14)));
        let channel_visible = [payload[14] != 0, payload[15] != 0, payload[16] != 0, payload[17] != 0];
        let channel_color = [
            clamp_color_index(payload[18] as u32),
            clamp_color_index(payload[19] as u32),
            clamp_color_index(payload[20] as u32),
            clamp_color_index(payload[21] as u32),
        ];
        Ok(XcopeStateV1 {
            mode,
            time_window,
            grid_subdivision,
            grid_triplet,
            display_mode,
            freeze,
            zoom_x_bits,
            zoom_y_bits,
            channel_visible,
            channel_color,
        })
    }
}

/// Encode a versioned payload from current parameter values.
pub fn encode_state_payload(params: &XcopeParams) -> (payload: Vec<u8>)
    ensures
        payload@ == spec_encode(spec_from_ui_state(params@)),
{
    XcopeStateV1::from_ui_state(&params.snapshot()).encode()
}

/// Decode and apply one versioned payload to the parameter store; the store
/// is left unchanged when the payload is refused.
pub fn decode_state_payload(params: &mut XcopeParams, payload: &[u8]) -> (result: Result<(), String>)
    ensures
        result is Ok <==> payload@.len() == PAYLOAD_LEN_V1,
        result is Ok ==> final(params)@ == spec_normalize_ui_state(
            spec_to_ui_state(spec_decode(payload@)),
        ),
        result is Err ==> final(params)@ == old(params)@,
        result matches Err(message) ==> message@ == spec_length_error(payload@.len()),
{
    let state = XcopeStateV1::decode(payload)?;
    params.apply_snapshot(&state.to_ui_state());
    Ok(())
}

} // verus!
