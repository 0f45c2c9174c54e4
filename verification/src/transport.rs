//! Transport/timing model used by scope window calculations.
//!
//! Tempo is carried as `f32` bits and the song position as `f64` bits.

use vstd::prelude::*;

use vstd::std_specs::cmp::PartialEqSpecImpl;

use crate::ieee754::{
    f32_bits_finite_above, f32_bits_ieee_eq, f32_finite_above, f32_ieee_eq, f64_bits_ieee_eq,
    f64_ieee_eq, F32_ONE_BITS,
};
use crate::constants::{MAX_SCOPE_WINDOW_SAMPLES, MIN_SCOPE_WINDOW_SAMPLES};
use crate::params::GridSubdivision;

verus! {

/// Default tempo, `120.0f32` beats per minute, as its bit pattern.
pub const DEFAULT_TEMPO_BPM_BITS: u32 = 0x42F0_0000;

/// Stored song-position bits that stand for "no song position".
pub const NONE_BEATS_SENTINEL: u64 = 0xFFFF_FFFF_FFFF_FFFF;

/// Immutable transport snapshot consumed by UI/timing code.
///
/// Two snapshots are equal when their tempos and song positions are equal as
/// IEEE numbers and their other fields are equal.
#[derive(Clone, Copy, Debug)]
pub struct TransportSnapshot {
    /// Host tempo in beats-per-minute (`f32` bits).
    pub tempo_bpm_bits: u32,
    /// Host playback state.
    pub is_playing: bool,
    /// Song position in quarter-note beats (`f64` bits), if provided.
    pub song_pos_beats_bits: Option<u64>,
    /// Time-signature numerator.
    pub time_sig_num: u16,
    /// Time-signature denominator.
    pub time_sig_denom: u16,
}

impl TransportSnapshot {
    /// The default transport: 120 BPM, stopped, no song position, 4/4.
    pub open spec fn spec_default() -> Self {
        TransportSnapshot {
            tempo_bpm_bits: DEFAULT_TEMPO_BPM_BITS,
            is_playing: false,
            song_pos_beats_bits: None,
            time_sig_num: 4,
            time_sig_denom: 4,
        }
    }
}

/// Equality of two optional `f64` song positions: both absent, or both
/// present and equal as IEEE numbers.
pub open spec fn song_pos_eq(a: Option<u64>, b: Option<u64>) -> bool {
    match (a, b) {
        (None, None) => true,
        (Some(x), Some(y)) => f64_ieee_eq(x, y),
        _ => false,
    }
}

impl PartialEq for TransportSnapshot {
    fn eq(&self, other: &Self) -> (equal: bool) {
        let same_position = match (self.song_pos_beats_bits, other.song_pos_beats_bits) {
            (None, None) => true,
            (Some(x), Some(y)) => f64_bits_ieee_eq(x, y),
            _ => false,
        };
        f32_bits_ieee_eq(self.tempo_bpm_bits, other.tempo_bpm_bits) && self.is_playing == other.is_playing
            && same_position && self.time_sig_num == other.time_sig_num && self.time_sig_denom
            == other.time_sig_denom
    }
}

impl PartialEqSpecImpl for TransportSnapshot {
    open spec fn obeys_eq_spec() -> bool {
        true
    }

    open spec fn eq_spec(&self, other: &Self) -> bool {
        &&& f32_ieee_eq(self.tempo_bpm_bits, other.tempo_bpm_bits)
        &&& self.is_playing == other.is_playing
        &&& song_pos_eq(self.song_pos_beats_bits, other.song_pos_beats_bits)
        &&& self.time_sig_num == other.time_sig_num
        &&& self.time_sig_denom == other.time_sig_denom
    }
}

impl Default for TransportSnapshot {
    fn default() -> (snapshot: Self)
        ensures
            snapshot == Self::spec_default(),
    {
        TransportSnapshot {
            tempo_bpm_bits: DEFAULT_TEMPO_BPM_BITS,
            is_playing: false,
            song_pos_beats_bits: None,
            time_sig_num: 4,
            time_sig_denom: 4,
        }
    }
}

/// A tempo is kept when it is finite and above one beat per minute;
/// otherwise the default tempo stands in.
pub open spec fn spec_sanitize_tempo(tempo_bits: u32) -> u32 {
    if f32_finite_above(tempo_bits, F32_ONE_BITS) {
        tempo_bits
    } else {
        DEFAULT_TEMPO_BPM_BITS
    }
}

/// Time-signature numerators are clamped into `1..=32`.
pub open spec fn spec_sanitize_time_sig_num(value: u16) -> u16 {
    if value < 1 {
        1
    } else if value > 32 {
        32
    } else {
        value
    }
}

/// Time-signature denominators must be 1, 2, 4, 8 or 16; others read as 4.
pub open spec fn spec_sanitize_time_sig_denom(value: u16) -> u16 {
    if value == 1 || value == 2 || value == 4 || value == 8 || value == 16 {
        value
    } else {
        4
    }
}

/// The snapshot a transport mirror reports after storing `snapshot`: tempo
/// and time signature sanitized, and a song position whose bits equal the
/// "no position" sentinel read back as absent.
pub open spec fn spec_sanitize_snapshot(snapshot: TransportSnapshot) -> TransportSnapshot {
    TransportSnapshot {
        tempo_bpm_bits: spec_sanitize_tempo(snapshot.tempo_bpm_bits),
        is_playing: snapshot.is_playing,
        song_pos_beats_bits: match snapshot.song_pos_beats_bits {
            Some(bits) => if bits == NONE_BEATS_SENTINEL {
                None
            } else {
                Some(bits)
            },
            None => None,
        },
        time_sig_num: spec_sanitize_time_sig_num(snapshot.time_sig_num),
        time_sig_denom: spec_sanitize_time_sig_denom(snapshot.time_sig_denom),
    }
}

/// Sanitizing is idempotent: a sanitized snapshot is stored unchanged.
pub proof fn lemma_sanitize_snapshot_idempotent(snapshot: TransportSnapshot)
    ensures
        spec_sanitize_snapshot(spec_sanitize_snapshot(snapshot)) == spec_sanitize_snapshot(snapshot),
        spec_sanitize_snapshot(TransportSnapshot::spec_default()) == TransportSnapshot::spec_default(),
{
}

/// Keep a tempo (`f32` bits) that is finite and above 1 BPM; otherwise 120 BPM.
pub fn sanitize_tempo(tempo_bits: u32) -> (sanitized: u32)
    ensures
        sanitized == spec_sanitize_tempo(tempo_bits),
{
    if f32_bits_finite_above(tempo_bits, F32_ONE_BITS) {
        tempo_bits
    } else {
        DEFAULT_TEMPO_BPM_BITS
    }
}

/// Clamp a time-signature numerator into `1..=32`.
pub fn sanitize_time_sig_num(value: u16) -> (sanitized: u16)
    ensures
        sanitized == spec_sanitize_time_sig_num(value),
{
    if value < 1 {
        1
    } else if value > 32 {
        32
    } else {
        value
    }
}

/// Keep a power-of-two denominator up to 16; otherwise 4.
pub fn sanitize_time_sig_denom(value: u16) -> (sanitized: u16)
    ensures
        sanitized == spec_sanitize_time_sig_denom(value),
{
    match value {
        1 | 2 | 4 | 8 | 16 => value,
        _ => 4,
    }
}

/// Shared transport mirror updated by the audio thread.
#[derive(Debug)]
pub struct TransportRuntime {
    tempo_bits: u32,
    is_playing: bool,
    song_pos_beats_bits: u64,
    time_sig_num: u16,
    time_sig_denom: u16,
}

impl View for TransportRuntime {
    type V = TransportSnapshot;

    /// The snapshot the mirror reports.
    closed spec fn view(&self) -> TransportSnapshot {
        TransportSnapshot {
            tempo_bpm_bits: spec_sanitize_tempo(self.tempo_bits),
            is_playing: self.is_playing,
            song_pos_beats_bits: if self.song_pos_beats_bits == NONE_BEATS_SENTINEL {
                None
            } else {
                Some(self.song_pos_beats_bits)
            },
            time_sig_num: spec_sanitize_time_sig_num(self.time_sig_num),
            time_sig_denom: spec_sanitize_time_sig_denom(self.time_sig_denom),
        }
    }
}

impl Default for TransportRuntime {
    fn default() -> (runtime: Self)
        ensures
            runtime@ == TransportSnapshot::spec_default(),
    {
        Self::new()
    }
}

impl TransportRuntime {
    /// Create a runtime mirror initialized to transport defaults.
    pub fn new() -> (runtime: Self)
        ensures
            runtime@ == TransportSnapshot::spec_default(),
    {
        let defaults = TransportSnapshot::default();
        TransportRuntime {
            tempo_bits: defaults.tempo_bpm_bits,
            is_playing: defaults.is_playing,
            song_pos_beats_bits: NONE_BEATS_SENTINEL,
            time_sig_num: defaults.time_sig_num,
            time_sig_denom: defaults.time_sig_denom,
        }
    }

    /// Update runtime transport state from one snapshot.
    pub fn update(&mut self, snapshot: TransportSnapshot)
        ensures
            final(self)@ == spec_sanitize_snapshot(snapshot),
    {
        self.tempo_bits = sanitize_tempo(snapshot.tempo_bpm_bits);
        self.is_playing = snapshot.is_playing;
        self.song_pos_beats_bits = match snapshot.song_pos_beats_bits {
            Some(bits) => bits,
            None => NONE_BEATS_SENTINEL,
        };
        self.time_sig_num = sanitize_time_sig_num(snapshot.time_sig_num);
        self.time_sig_denom = sanitize_time_sig_denom(snapshot.time_sig_denom);
    }

    /// Snapshot current transport state.
    pub fn snapshot(&self) -> (snapshot: TransportSnapshot)
        ensures
            snapshot == self@,
    {
        TransportSnapshot {
            tempo_bpm_bits: sanitize_tempo(self.tempo_bits),
            is_playing: self.is_playing,
            song_pos_beats_bits: if self.song_pos_beats_bits == NONE_BEATS_SENTINEL {
                None
            } else {
                Some(self.song_pos_beats_bits)
            },
            time_sig_num: sanitize_time_sig_num(self.time_sig_num),
            time_sig_denom: sanitize_time_sig_denom(self.time_sig_denom),
        }
    }
}

/// Grid lines per beat for a subdivision: 2, 4 or 8, and three halves of
/// that (rounded down) in triplet mode.
pub open spec fn spec_subdivisions_for_grid(base: GridSubdivision, triplet: bool) -> u32 {
    let div: u32 = match base {
        GridSubdivision::Div8 => 2,
        GridSubdivision::Div16 => 4,
        GridSubdivision::Div32 => 8,
    };
    if triplet {
        (div * 3 / 2) as u32
    } else {
        div
    }
}

/// Resolve beat subdivision line count for one visible beat span.
pub fn subdivisions_for_grid(base: GridSubdivision, triplet: bool) -> (lines: u32)
    ensures
        lines == spec_subdivisions_for_grid(base, triplet),
        1 <= lines <= 12,
{
    let div: u32 = match base {
        GridSubdivision::Div8 => 2,
        GridSubdivision::Div16 => 4,
        GridSubdivision::Div32 => 8,
    };
    if triplet {
        div * 3 / 2
    } else {
        div
    }
}

/// A visible window length clamped to the scope's window bounds.
pub open spec fn spec_clamp_visible_window(samples: usize) -> usize {
    if samples < MIN_SCOPE_WINDOW_SAMPLES {
        MIN_SCOPE_WINDOW_SAMPLES
    } else if samples > MAX_SCOPE_WINDOW_SAMPLES {
        MAX_SCOPE_WINDOW_SAMPLES
    } else {
        samples
    }
}

/// Clamp a visible window length (in samples) to the scope's window bounds,
/// `64..=262144` samples.
pub fn clamp_visible_window(samples: usize) -> (n: usize)
    ensures
        n == spec_clamp_visible_window(samples),
        MIN_SCOPE_WINDOW_SAMPLES <= n <= MAX_SCOPE_WINDOW_SAMPLES,
{
    if samples < MIN_SCOPE_WINDOW_SAMPLES {
        MIN_SCOPE_WINDOW_SAMPLES
    } else if samples > MAX_SCOPE_WINDOW_SAMPLES {
        MAX_SCOPE_WINDOW_SAMPLES
    } else {
        samples
    }
}

} // verus!
