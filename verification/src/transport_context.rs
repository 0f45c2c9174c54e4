//! Host process-context decoding.
//!
//! Each audio block the host reports a process context: a word of validity
//! flags and the transport values those flags vouch for. Decoding decides,
//! field by field, whether the block's value or the previous snapshot's value
//! stands, and whether the song position is to be projected to the end of
//! the block. The projection itself is real arithmetic on beats and is done
//! by the caller.

use vstd::prelude::*;

use crate::transport::TransportSnapshot;

verus! {

/// Context flag: the transport is playing.
pub const CONTEXT_PLAYING: u32 = 0x2;

/// Context flag: the musical project time is valid.
pub const CONTEXT_PROJECT_TIME_MUSIC_VALID: u32 = 0x200;

/// Context flag: the tempo is valid.
pub const CONTEXT_TEMPO_VALID: u32 = 0x400;

/// Context flag: the time signature is valid.
pub const CONTEXT_TIME_SIG_VALID: u32 = 0x2000;

/// Transport values reported with one audio block.
#[derive(Clone, Copy, Debug, PartialEq, Eq)]
pub struct ProcessContextFields {
    /// Validity and state flags.
    pub state: u32,
    /// Tempo in beats per minute (`f32` bits of the host's value).
    pub tempo_bpm_bits: u32,
    /// Musical project time in quarter-note beats (`f64` bits).
    pub project_time_music_bits: u64,
    /// Time-signature numerator.
    pub time_sig_numerator: i32,
    /// Time-signature denominator.
    pub time_sig_denominator: i32,
}

/// Where the song position of the new snapshot comes from.
#[derive(Clone, Copy, Debug, PartialEq, Eq)]
pub enum SongPositionSource {
    /// Keep the previous snapshot's position.
    Previous,
    /// Project the block's project time (`f64` bits) at a tempo (`f32`
    /// bits), advancing it over the block when `advance` is set.
    Project {
        /// Project time at the start of the block (`f64` bits).
        base_beats_bits: u64,
        /// Tempo to project with (`f32` bits).
        tempo_bpm_bits: u32,
        /// Whether the position moves during the block.
        advance: bool,
    },
}

/// Decoded transport for one block, with the song position still to be
/// resolved from its source.
#[derive(Clone, Copy, Debug, PartialEq, Eq)]
pub struct TransportUpdate {
    /// Tempo (`f32` bits).
    pub tempo_bpm_bits: u32,
    /// Playback state.
    pub is_playing: bool,
    /// Source of the song position.
    pub song_position: SongPositionSource,
    /// Time-signature numerator.
    pub time_sig_num: u16,
    /// Time-signature denominator.
    pub time_sig_denom: u16,
}

/// One flag is set in a flag word.
pub open spec fn flag_set(state: u32, flag: u32) -> bool {
    state & flag != 0
}

/// Decoding rule: the tempo stands when valid, else the previous tempo; the
/// playing flag is taken as reported; a valid project time is projected at
/// the chosen tempo, advancing only while playing with a valid tempo;
/// otherwise the previous position stands; a valid time signature replaces
/// the previous one (its parts truncated to 16 bits).
pub open spec fn spec_transport_update(context: ProcessContextFields, previous: TransportSnapshot) -> TransportUpdate {
    let tempo_valid = flag_set(context.state, CONTEXT_TEMPO_VALID);
    let position_valid = flag_set(context.state, CONTEXT_PROJECT_TIME_MUSIC_VALID);
    let playing = flag_set(context.state, CONTEXT_PLAYING);
    let signature_valid = flag_set(context.state, CONTEXT_TIME_SIG_VALID);
    let tempo = if tempo_valid {
        context.tempo_bpm_bits
    } else {
        previous.tempo_bpm_bits
    };
    TransportUpdate {
        tempo_bpm_bits: tempo,
        is_playing: playing,
        song_position: if position_valid {
            SongPositionSource::Project {
                base_beats_bits: context.project_time_music_bits,
                tempo_bpm_bits: tempo,
                advance: playing && tempo_valid,
            }
        } else {
            SongPositionSource::Previous
        },
        time_sig_num: if signature_valid {
            context.time_sig_numerator as u16
        } else {
            previous.time_sig_num
        },
        time_sig_denom: if signature_valid {
            context.time_sig_denominator as u16
        } else {
            previous.time_sig_denom
        },
    }
}

/// Decode one block's process context against the previous snapshot.
pub fn transport_update_from_context(context: ProcessContextFields, previous: TransportSnapshot) -> (update: TransportUpdate)
    ensures
        update == spec_transport_update(context, previous),
{
    let flags = context.state;
    let tempo_valid = flags & CONTEXT_TEMPO_VALID != 0;
    let position_valid = flags & CONTEXT_PROJECT_TIME_MUSIC_VALID != 0;
    let playing = flags & CONTEXT_PLAYING != 0;
    let signature_valid = flags & CONTEXT_TIME_SIG_VALID != 0;
    let tempo = if tempo_valid {
        context.tempo_bpm_bits
    } else {
        previous.tempo_bpm_bits
    };
    TransportUpdate {
        tempo_bpm_bits: tempo,
        is_playing: playing,
        song_position: if position_valid {
            SongPositionSource::Project {
                base_beats_bits: context.project_time_music_bits,
                tempo_bpm_bits: tempo,
                advance: playing && tempo_valid,
            }
        } else {
            SongPositionSource::Previous
        },
        time_sig_num: if signature_valid {
            context.time_sig_numerator as u16
        } else {
            previous.time_sig_num
        },
        time_sig_denom: if signature_valid {
            context.time_sig_denominator as u16
        } else {
            previous.time_sig_denom
        },
    }
}

/// Complete a decoded update into a snapshot, given the song position the
/// caller projected (used only when the update asks for a projection).
pub fn finish_transport_update(update: TransportUpdate, previous: TransportSnapshot, projected_beats_bits: u64) -> (snapshot: TransportSnapshot)
    ensures
        snapshot.tempo_bpm_bits == update.tempo_bpm_bits,
        snapshot.is_playing == update.is_playing,
        snapshot.time_sig_num == update.time_sig_num,
        snapshot.time_sig_denom == update.time_sig_denom,
        snapshot.song_pos_beats_bits == (match update.song_position {
            SongPositionSource::Previous => previous.song_pos_beats_bits,
            SongPositionSource::Project { .. } => Some(projected_beats_bits),
        }),
{
    TransportSnapshot {
        tempo_bpm_bits: update.tempo_bpm_bits,
        is_playing: update.is_playing,
        song_pos_beats_bits: match update.song_position {
            SongPositionSource::Previous => previous.song_pos_beats_bits,
            SongPositionSource::Project { .. } => Some(projected_beats_bits),
        },
        time_sig_num: update.time_sig_num,
        time_sig_denom: update.time_sig_denom,
    }
}

/// The host's values are taken exactly when the context vouches for them:
/// with the tempo-valid flag set the decoded tempo, and the tempo a song
/// position is projected at, are the context's tempo, and otherwise the
/// previous tempo stands; a valid project time is projected from the
/// context's position and moves only while playing at a valid tempo, and
/// without one the previous position stands; the playing state is the
/// context's flag; a valid time signature replaces the previous one.
pub proof fn lemma_context_values_taken_when_valid(context: ProcessContextFields, previous: TransportSnapshot)
    ensures
        ({
            let update = spec_transport_update(context, previous);
            &&& context.state & CONTEXT_TEMPO_VALID != 0 ==> update.tempo_bpm_bits == context.tempo_bpm_bits
            &&& context.state & CONTEXT_TEMPO_VALID == 0 ==> update.tempo_bpm_bits == previous.tempo_bpm_bits
            &&& update.is_playing == (context.state & CONTEXT_PLAYING != 0)
            &&& context.state & CONTEXT_PROJECT_TIME_MUSIC_VALID != 0 ==> update.song_position
                == SongPositionSource::Project {
                base_beats_bits: context.project_time_music_bits,
                tempo_bpm_bits: update.tempo_bpm_bits,
                advance: context.state & CONTEXT_PLAYING != 0 && context.state & CONTEXT_TEMPO_VALID != 0,
            }
            &&& context.state & CONTEXT_PROJECT_TIME_MUSIC_VALID == 0 ==> update.song_position
                == SongPositionSource::Previous
            &&& context.state & CONTEXT_TIME_SIG_VALID == 0 ==> update.time_sig_num == previous.time_sig_num
                && update.time_sig_denom == previous.time_sig_denom
            &&& context.state & CONTEXT_TIME_SIG_VALID != 0 ==> update.time_sig_num
                == context.time_sig_numerator as u16 && update.time_sig_denom
                == context.time_sig_denominator as u16
        }),
{
}

} // verus!
