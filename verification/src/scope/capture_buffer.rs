//! Scope capture ring buffer.
//!
//! The buffer records sample frames, one `f32` bit pattern per visual
//! channel, and keeps the most recent `capacity` of them. Its model is the
//! sequence of every frame ever written ([`ScopeCaptureBuffer::spec_frames`]);
//! reads return a window of that sequence that still lies in the ring.

use vstd::prelude::*;
use vstd::std_specs::cmp::PartialEqSpecImpl;

use crate::constants::MAX_VISUAL_CHANNELS;
use crate::ieee754::{f32_bits_ieee_eq, f32_ieee_eq, f64_bits_is_finite, f64_finite};
use crate::transport::NONE_BEATS_SENTINEL;

use super::ring_math::{lemma_next_slot, lemma_recent_slots_distinct};

verus! {

/// One captured sample frame: one `f32` bit pattern per visual channel.
pub type SampleFrame = [u32; MAX_VISUAL_CHANNELS];

/// One immutable snapshot of captured scope samples.
///
/// Two frames are equal when they have the same channel count and the same
/// number of sample frames, and their samples are equal as IEEE numbers.
#[derive(Debug)]
pub struct ScopeFrame {
    /// Number of valid channels represented in each sample frame.
    pub channel_count: usize,
    /// Captured samples in chronological order.
    pub samples: Vec<SampleFrame>,
}

impl PartialEq for ScopeFrame {
    fn eq(&self, other: &Self) -> (equal: bool) {
        if self.channel_count != other.channel_count || self.samples.len() != other.samples.len() {
            return false;
        }
        let mut index: usize = 0;
        while index < self.samples.len()
            invariant
                index <= self.samples@.len(),
                self.samples@.len() == other.samples@.len(),
                forall|i: int, c: int|
                    0 <= i < index && 0 <= c < MAX_VISUAL_CHANNELS ==> f32_ieee_eq(
                        #[trigger] self.samples@[i][c],
                        other.samples@[i][c],
                    ),
            decreases self.samples@.len() - index,
        {
            let mine = self.samples[index];
            let theirs = other.samples[index];
            let mut c: usize = 0;
            while c < MAX_VISUAL_CHANNELS
                invariant
                    c <= MAX_VISUAL_CHANNELS,
                    index < self.samples@.len(),
                    mine == self.samples@[index as int],
                    theirs == other.samples@[index as int],
                    forall|k: int| 0 <= k < c ==> f32_ieee_eq(#[trigger] mine[k], theirs[k]),
                decreases MAX_VISUAL_CHANNELS - c,
            {
                if !f32_bits_ieee_eq(mine[c], theirs[c]) {
                    return false;
                }
                c = c + 1;
            }
            index = index + 1;
        }
        true
    }
}

impl PartialEqSpecImpl for ScopeFrame {
    open spec fn obeys_eq_spec() -> bool {
        true
    }

    open spec fn eq_spec(&self, other: &Self) -> bool {
        &&& self.channel_count == other.channel_count
        &&& self.samples@.len() == other.samples@.len()
        &&& forall|i: int, c: int|
            0 <= i < self.samples@.len() && 0 <= c < MAX_VISUAL_CHANNELS ==> f32_ieee_eq(
                #[trigger] self.samples@[i][c],
                other.samples@[i][c],
            )
    }
}

impl ScopeFrame {
    /// Sample bits at a channel and frame index: channels past the last
    /// visual channel read the last one, frames past the end read `0.0`.
    pub open spec fn spec_sample(&self, channel: int, index: int) -> u32 {
        if 0 <= index < self.samples@.len() {
            self.samples@[index][if channel < MAX_VISUAL_CHANNELS - 1 {
                channel
            } else {
                MAX_VISUAL_CHANNELS - 1
            }]
        } else {
            0
        }
    }

    /// An empty frame with no channels.
    pub fn empty() -> (frame: Self)
        ensures
            frame.channel_count == 0,
            frame.samples@.len() == 0,
    {
        ScopeFrame { channel_count: 0, samples: Vec::new() }
    }

    /// Number of captured sample frames.
    pub fn sample_count(&self) -> (count: usize)
        ensures
            count == self.samples@.len(),
    {
        self.samples.len()
    }

    /// Read one sample (`f32` bits) by channel and frame index.
    pub fn sample(&self, channel: usize, index: usize) -> (bits: u32)
        ensures
            bits == self.spec_sample(channel as int, index as int),
    {
        if index < self.samples.len() {
            let frame = self.samples[index];
            let slot = if channel < MAX_VISUAL_CHANNELS - 1 {
                channel
            } else {
                MAX_VISUAL_CHANNELS - 1
            };
            frame[slot]
        } else {
            0
        }
    }

    /// Copy this frame.
    pub fn duplicate(&self) -> (copy: Self)
        ensures
            copy.channel_count == self.channel_count,
            copy.samples@ == self.samples@,
    {
        let mut samples: Vec<SampleFrame> = Vec::new();
        let mut index: usize = 0;
        while index < self.samples.len()
            invariant
                index <= self.samples@.len(),
                samples@ == self.samples@.subrange(0, index as int),
            decreases self.samples@.len() - index,
        {
            samples.push(self.samples[index]);
            index = index + 1;
            assert(samples@ =~= self.samples@.subrange(0, index as int));
        }
        assert(samples@ =~= self.samples@);
        ScopeFrame { channel_count: self.channel_count, samples }
    }
}

impl Default for ScopeFrame {
    fn default() -> (frame: Self)
        ensures
            frame.channel_count == 0,
            frame.samples@.len() == 0,
    {
        ScopeFrame::empty()
    }
}

/// First absolute frame index still held by a ring of `capacity` frames
/// after `total` frames were written.
pub open spec fn spec_earliest_available(total: nat, capacity: nat) -> nat {
    if total >= capacity {
        (total - capacity) as nat
    } else {
        0
    }
}

/// Absolute frame range `[start, end)` read for a window ending at
/// `end_exclusive` of at most `requested` frames: the end is clamped into the
/// frames the ring still holds, and at most `capacity` frames are read.
pub open spec fn spec_window_bounds(total: nat, capacity: nat, end_exclusive: nat, requested: nat) -> (nat, nat) {
    let earliest = spec_earliest_available(total, capacity);
    let end = if end_exclusive < earliest {
        earliest
    } else if end_exclusive > total {
        total
    } else {
        end_exclusive
    };
    let take = if requested < capacity {
        requested
    } else {
        capacity
    };
    let start = if end >= take {
        (end - take) as nat
    } else {
        0
    };
    (if start < earliest {
        earliest
    } else {
        start
    }, end)
}

/// A recent-frames window is the suffix of the last `min(requested,
/// capacity, total)` frames: reading right after writing gives back the
/// frames written, as far as the ring holds them.
pub proof fn lemma_recent_window_is_suffix(total: nat, capacity: nat, requested: nat)
    requires
        capacity >= 1,
    ensures
        ({
            let count = if requested <= capacity && requested <= total {
                requested
            } else if capacity <= total {
                capacity
            } else {
                total
            };
            spec_window_bounds(total, capacity, total, requested) == ((total - count) as nat, total)
        }),
{
}

/// Ring size: a widest read (a request of at least the capacity, ending at
/// the newest frame) returns the last `min(total, capacity)` frames written,
/// so the ring keeps exactly its capacity once it has filled.
pub proof fn lemma_widest_read_keeps_capacity(total: nat, capacity: nat, requested: nat)
    requires
        capacity >= 1,
        requested >= capacity,
    ensures
        ({
            let kept = if total < capacity {
                total
            } else {
                capacity
            };
            spec_window_bounds(total, capacity, total, requested) == ((total - kept) as nat, total)
        }),
{
    lemma_recent_window_is_suffix(total, capacity, requested);
}

/// A window asked to end at or past the newest frame ends at the newest
/// frame: it is the window of the most recent frames, holding the last
/// `min(requested, capacity, total)` frames written.
pub proof fn lemma_window_past_newest_ends_at_newest(
    total: nat,
    capacity: nat,
    end_exclusive: nat,
    requested: nat,
)
    requires
        capacity >= 1,
        end_exclusive >= total,
    ensures
        spec_window_bounds(total, capacity, end_exclusive, requested) == spec_window_bounds(
            total,
            capacity,
            total,
            requested,
        ),
        ({
            let kept = if requested <= capacity && requested <= total {
                requested
            } else if capacity <= total {
                capacity
            } else {
                total
            };
            spec_window_bounds(total, capacity, end_exclusive, requested) == ((total - kept) as nat, total)
        }),
{
    lemma_recent_window_is_suffix(total, capacity, requested);
}

/// Which buses a process block captures: a channel is silent unless its bus
/// is active (bit 0 of the mask for the main bus, channel 0; bit 1 for the
/// sidechain, channel 1), and an active bus with a readable left channel is
/// captured sample for sample; two channels are recorded exactly when the
/// sidechain delivers.
pub proof fn lemma_process_frame_follows_active_buses(
    active_mask: u32,
    sources: Seq<Option<&[u32]>>,
    index: int,
)
    ensures
        active_mask & 1 == 0 ==> spec_process_frame(active_mask, sources, index)[0] == 0,
        active_mask & 2 == 0 ==> spec_process_frame(active_mask, sources, index)[1] == 0,
        active_mask & 1 != 0 && 0 < sources.len() && sources[0] is Some ==> spec_process_frame(
            active_mask,
            sources,
            index,
        )[0] == sources[0]->Some_0@[index],
        active_mask & 2 != 0 && 1 < sources.len() && sources[1] is Some ==> spec_process_frame(
            active_mask,
            sources,
            index,
        )[1] == sources[1]->Some_0@[index],
        (0 < sources.len() && sources[0] is None) || sources.len() == 0 ==> spec_process_frame(
            active_mask,
            sources,
            index,
        )[0] == 0,
        spec_process_channel_count(active_mask, sources) == if active_mask & 2 != 0 && 1
            < sources.len() && sources[1] is Some {
            2nat
        } else {
            1nat
        },
{
}

/// Reading a window never yields more than the requested frames, nor more
/// than the ring holds, and always ends within the frames written.
pub proof fn lemma_window_bounds(total: nat, capacity: nat, end_exclusive: nat, requested: nat)
    ensures
        ({
            let (start, end) = spec_window_bounds(total, capacity, end_exclusive, requested);
            &&& spec_earliest_available(total, capacity) <= start <= end <= total
            &&& end - start <= requested
            &&& end - start <= capacity
        }),
{
}

/// The ring slots hold the most recent frames.
pub open spec fn spec_ring_holds(storage: Seq<u32>, frames: Seq<SampleFrame>, capacity: nat) -> bool {
    forall|i: int|
        #![trigger frames[i]]
        spec_earliest_available(frames.len(), capacity) <= i < frames.len() ==> storage[(i
            % capacity as int) * 2] == frames[i][0] && storage[(i % capacity as int) * 2 + 1]
            == frames[i][1]
}

/// Value channel `channel` of frame `index` takes in a captured block: the
/// channel's sample when the block has that channel and sample, `0.0` else.
pub open spec fn spec_block_value(channels: Seq<&[u32]>, channel: int, index: int) -> u32 {
    let captured = if channels.len() < MAX_VISUAL_CHANNELS {
        channels.len() as int
    } else {
        MAX_VISUAL_CHANNELS as int
    };
    if channel < captured && index < channels[channel]@.len() {
        channels[channel]@[index]
    } else {
        0
    }
}

/// Frame `index` of a captured block.
pub open spec fn spec_block_frame(channels: Seq<&[u32]>, index: int) -> SampleFrame {
    [spec_block_value(channels, 0, index), spec_block_value(channels, 1, index)]
}

/// Input source `source` delivers samples in a process block: its bit is
/// set in the active mask and its left channel is readable.
pub open spec fn spec_source_delivers(active_mask: u32, sources: Seq<Option<&[u32]>>, source: int) -> bool {
    &&& 0 <= source < MAX_VISUAL_CHANNELS
    &&& (if source == 0 {
        active_mask & 1 != 0
    } else {
        active_mask & 2 != 0
    })
    &&& source < sources.len()
    &&& sources[source] is Some
}

/// Frame `index` of a process block: delivering sources contribute their
/// left-channel sample, the others `0.0`.
pub open spec fn spec_process_frame(active_mask: u32, sources: Seq<Option<&[u32]>>, index: int) -> SampleFrame {
    [
        if spec_source_delivers(active_mask, sources, 0) {
            sources[0]->Some_0@[index]
        } else {
            0
        },
        if spec_source_delivers(active_mask, sources, 1) {
            sources[1]->Some_0@[index]
        } else {
            0
        },
    ]
}

/// Channel count recorded for a process block: one past the last delivering
/// source, and at least one.
pub open spec fn spec_process_channel_count(active_mask: u32, sources: Seq<Option<&[u32]>>) -> nat {
    if spec_source_delivers(active_mask, sources, 1) {
        2
    } else {
        1
    }
}

/// Real-time capture ring buffer storing up to `MAX_VISUAL_CHANNELS` channels.
pub struct ScopeCaptureBuffer {
    capacity: usize,
    storage: Vec<u32>,
    write_cursor: usize,
    total_written: u64,
    last_channel_count: usize,
    transport_anchor_sample: u64,
    transport_anchor_beats_bits: u64,
    frames: Ghost<Seq<SampleFrame>>,
}

impl ScopeCaptureBuffer {
    /// Every frame written so far, oldest first.
    pub closed spec fn spec_frames(&self) -> Seq<SampleFrame> {
        self.frames@
    }

    /// Number of frames the ring holds.
    pub closed spec fn spec_capacity(&self) -> nat {
        self.capacity as nat
    }

    /// Channel count of the most recent write (zero before any write).
    pub closed spec fn spec_channel_count(&self) -> nat {
        self.last_channel_count as nat
    }

    /// Latest transport anchor as `(absolute frame index, f64 beat bits)`.
    pub closed spec fn spec_anchor(&self) -> Option<(u64, u64)> {
        if self.transport_anchor_beats_bits == NONE_BEATS_SENTINEL {
            None
        } else {
            Some((self.transport_anchor_sample, self.transport_anchor_beats_bits))
        }
    }

    /// Well-formedness: the ring holds the most recent frames, the cursor
    /// sits at the next slot, and the counters agree with the model.
    pub closed spec fn wf(&self) -> bool {
        &&& self.capacity >= 1
        &&& self.capacity <= usize::MAX / 2
        &&& self.storage@.len() == self.capacity * 2
        &&& self.total_written == self.frames@.len()
        &&& self.write_cursor as int == (self.frames@.len() as int) % (self.capacity as int)
        &&& self.last_channel_count <= MAX_VISUAL_CHANNELS
        &&& spec_ring_holds(self.storage@, self.frames@, self.capacity as nat)
    }

    /// The buffer's counters and capacity are machine integers.
    pub proof fn lemma_wf_bounds(&self)
        requires
            self.wf(),
        ensures
            self.spec_frames().len() <= u64::MAX,
            1 <= self.spec_capacity() <= usize::MAX,
            self.spec_channel_count() <= MAX_VISUAL_CHANNELS,
    {
    }

    /// Create a new ring buffer holding `capacity` frames (at least one).
    pub fn new(capacity: usize) -> (buffer: Self)
        requires
            capacity <= usize::MAX / 2,
        ensures
            buffer.wf(),
            buffer.spec_capacity() == if capacity >= 1 {
                capacity as nat
            } else {
                1
            },
            buffer.spec_frames().len() == 0,
            buffer.spec_channel_count() == 0,
            buffer.spec_anchor() is None,
    {
        let clamped_capacity = if capacity >= 1 {
            capacity
        } else {
            1
        };
        let storage_len = clamped_capacity * MAX_VISUAL_CHANNELS;
        let storage = vec![0u32; storage_len];
        ScopeCaptureBuffer {
            capacity: clamped_capacity,
            storage,
            write_cursor: 0,
            total_written: 0,
            last_channel_count: 0,
            transport_anchor_sample: 0,
            transport_anchor_beats_bits: NONE_BEATS_SENTINEL,
            frames: Ghost(Seq::empty()),
        }
    }

    fn storage_index(&self, frame_index: usize, channel_index: usize) -> (index: usize)
        requires
            self.wf(),
            frame_index < self.capacity,
            channel_index < MAX_VISUAL_CHANNELS,
        ensures
            index == frame_index * 2 + channel_index,
            index < self.storage@.len(),
    {
        frame_index * MAX_VISUAL_CHANNELS + channel_index
    }

    /// Append one frame at the cursor.
    fn store_frame(&mut self, frame: SampleFrame)
        requires
            old(self).wf(),
            old(self).spec_frames().len() < u64::MAX,
        ensures
            final(self).wf(),
            final(self).spec_frames() == old(self).spec_frames().push(frame),
            final(self).spec_capacity() == old(self).spec_capacity(),
            final(self).spec_channel_count() == old(self).spec_channel_count(),
            final(self).spec_anchor() == old(self).spec_anchor(),
    {
        let cursor = self.write_cursor;
        let ghost total = self.frames@.len() as int;
        let ghost cap = self.capacity as int;
        proof {
            lemma_next_slot(total, cap);
        }
        let first = self.storage_index(cursor, 0);
        let second = self.storage_index(cursor, 1);
        self.storage.set(first, frame[0]);
        self.storage.set(second, frame[1]);
        self.write_cursor = if cursor + 1 >= self.capacity {
            0
        } else {
            cursor + 1
        };
        self.total_written = self.total_written + 1;
        self.frames = Ghost(self.frames@.push(frame));
        proof {
            let frames = self.frames@;
            assert forall|i: int|
                #![trigger frames[i]]
                spec_earliest_available(frames.len(), cap as nat) <= i < frames.len() implies self.storage@[(
                i % cap) * 2] == frames[i][0] && self.storage@[(i % cap) * 2 + 1] == frames[i][1] by {
                if i < total {
                    lemma_recent_slots_distinct(i, total, cap);
                    assert(old(self).frames@[i] == frames[i]);
                }
            }
        }
    }

    /// Append one audio block to the capture ring.
    ///
    /// `channels` may include any channel count. Only the first
    /// `MAX_VISUAL_CHANNELS` channels are captured; missing samples and
    /// uncaptured channels read `0.0`. An empty block, or one without
    /// channels, changes nothing.
    pub fn write_block(&mut self, channels: &[&[u32]], sample_count: usize)
        requires
            old(self).wf(),
            old(self).spec_frames().len() + sample_count <= u64::MAX,
        ensures
            final(self).wf(),
            final(self).spec_capacity() == old(self).spec_capacity(),
            final(self).spec_anchor() == old(self).spec_anchor(),
            sample_count == 0 || channels@.len() == 0 ==> final(self).spec_frames() == old(
                self,
            ).spec_frames() && final(self).spec_channel_count() == old(self).spec_channel_count(),
            sample_count > 0 && channels@.len() > 0 ==> final(self).spec_frames() == old(
                self,
            ).spec_frames() + Seq::new(
                sample_count as nat,
                |i: int| spec_block_frame(channels@, i),
            ) && final(self).spec_channel_count() == if channels@.len() < MAX_VISUAL_CHANNELS {
                channels@.len()
            } else {
                MAX_VISUAL_CHANNELS as nat
            },
    {
        if sample_count == 0 {
            return;
        }
        let channel_count = if channels.len() < MAX_VISUAL_CHANNELS {
            channels.len()
        } else {
            MAX_VISUAL_CHANNELS
        };
        if channel_count == 0 {
            return;
        }
        self.last_channel_count = channel_count;
        let ghost start = self.frames@;
        let mut sample_index: usize = 0;
        while sample_index < sample_count
            invariant
                self.wf(),
                sample_index <= sample_count,
                start.len() + sample_count <= u64::MAX,
                self.frames@ == start + Seq::new(
                    sample_index as nat,
                    |i: int| spec_block_frame(channels@, i),
                ),
                self.capacity == old(self).capacity,
                self.last_channel_count == channel_count,
                channel_count == (if channels@.len() < MAX_VISUAL_CHANNELS {
                    channels@.len()
                } else {
                    MAX_VISUAL_CHANNELS as nat
                }),
                self.spec_anchor() == old(self).spec_anchor(),
            decreases sample_count - sample_index,
        {
            let mut frame: SampleFrame = [0u32; MAX_VISUAL_CHANNELS];
            if 0 < channel_count && sample_index < channels[0].len() {
                frame[0] = channels[0][sample_index];
            }
            if 1 < channel_count && sample_index < channels[1].len() {
                frame[1] = channels[1][sample_index];
            }
            assert(frame =~= spec_block_frame(channels@, sample_index as int));
            self.store_frame(frame);
            sample_index = sample_index + 1;
            assert(self.frames@ =~= start + Seq::new(
                sample_index as nat,
                |i: int| spec_block_frame(channels@, i),
            ));
        }
    }

    /// Append one sample frame to the capture ring.
    ///
    /// `channel_count` is clamped to `MAX_VISUAL_CHANNELS`; a zero channel
    /// count changes nothing.
    pub fn write_sample(&mut self, sample: SampleFrame, channel_count: usize)
        requires
            old(self).wf(),
            old(self).spec_frames().len() < u64::MAX,
        ensures
            final(self).wf(),
            final(self).spec_capacity() == old(self).spec_capacity(),
            final(self).spec_anchor() == old(self).spec_anchor(),
            channel_count == 0 ==> final(self).spec_frames() == old(self).spec_frames()
                && final(self).spec_channel_count() == old(self).spec_channel_count(),
            channel_count > 0 ==> final(self).spec_frames() == old(self).spec_frames().push(sample)
                && final(self).spec_channel_count() == if channel_count < MAX_VISUAL_CHANNELS {
                channel_count as nat
            } else {
                MAX_VISUAL_CHANNELS as nat
            },
    {
        let channels = if channel_count < MAX_VISUAL_CHANNELS {
            channel_count
        } else {
            MAX_VISUAL_CHANNELS
        };
        if channels == 0 {
            return;
        }
        self.last_channel_count = channels;
        self.store_frame(sample);
    }

    /// Capture one host process block, one frame per sample.
    ///
    /// `sources[k]` is the left channel of input bus `k` when the host
    /// delivered a readable one; bit `k` of `active_mask` tells whether that
    /// bus is active. Each frame holds the delivering sources' samples and
    /// `0.0` elsewhere; the recorded channel count is one past the last
    /// delivering source, and at least one. An empty block changes nothing.
    pub fn capture_process_block(
        &mut self,
        active_mask: u32,
        sources: &[Option<&[u32]>],
        sample_count: usize,
    )
        requires
            old(self).wf(),
            old(self).spec_frames().len() + sample_count <= u64::MAX,
            forall|k: int|
                0 <= k < sources@.len() && #[trigger] sources@[k] is Some ==> sources@[k]->Some_0@.len()
                    >= sample_count,
        ensures
            final(self).wf(),
            final(self).spec_capacity() == old(self).spec_capacity(),
            final(self).spec_anchor() == old(self).spec_anchor(),
            sample_count == 0 ==> final(self).spec_frames() == old(self).spec_frames()
                && final(self).spec_channel_count() == old(self).spec_channel_count(),
            sample_count > 0 ==> final(self).spec_frames() == old(self).spec_frames() + Seq::new(
                sample_count as nat,
                |i: int| spec_process_frame(active_mask, sources@, i),
            ) && final(self).spec_channel_count() == spec_process_channel_count(
                active_mask,
                sources@,
            ),
    {
        let delivers_main = active_mask & 1 != 0 && 0 < sources.len() && sources[0].is_some();
        let delivers_side = active_mask & 2 != 0 && 1 < sources.len() && sources[1].is_some();
        let active_sources: usize = if delivers_side {
            2
        } else if delivers_main {
            1
        } else {
            0
        };
        let channel_count = if active_sources > 1 {
            active_sources
        } else {
            1
        };
        let ghost start = self.frames@;
        let mut sample_index: usize = 0;
        while sample_index < sample_count
            invariant
                self.wf(),
                sample_index <= sample_count,
                start.len() + sample_count <= u64::MAX,
                start == old(self).spec_frames(),
                self.frames@ == start + Seq::new(
                    sample_index as nat,
                    |i: int| spec_process_frame(active_mask, sources@, i),
                ),
                self.capacity == old(self).capacity,
                sample_index > 0 ==> self.last_channel_count as nat == spec_process_channel_count(
                    active_mask,
                    sources@,
                ),
                sample_index == 0 ==> self.last_channel_count == old(self).last_channel_count,
                channel_count as nat == spec_process_channel_count(active_mask, sources@),
                delivers_main == spec_source_delivers(active_mask, sources@, 0),
                delivers_side == spec_source_delivers(active_mask, sources@, 1),
                forall|k: int|
                    0 <= k < sources@.len() && #[trigger] sources@[k] is Some
                        ==> sources@[k]->Some_0@.len() >= sample_count,
                self.spec_anchor() == old(self).spec_anchor(),
            decreases sample_count - sample_index,
        {
            let mut frame: SampleFrame = [0u32; MAX_VISUAL_CHANNELS];
            if delivers_main {
                if let Some(left) = sources[0] {
                    frame[0] = left[sample_index];
                }
            }
            if delivers_side {
                if let Some(left) = sources[1] {
                    frame[1] = left[sample_index];
                }
            }
            assert(frame =~= spec_process_frame(active_mask, sources@, sample_index as int));
            self.write_sample(frame, channel_count);
            sample_index = sample_index + 1;
            assert(self.frames@ =~= start + Seq::new(
                sample_index as nat,
                |i: int| spec_process_frame(active_mask, sources@, i),
            ));
        }
        proof {
            if sample_count == 0 {
                assert(self.frames@ =~= old(self).spec_frames());
            }
        }
    }

    /// Return a chronological snapshot of the most recent sample frames.
    pub fn snapshot_recent(&self, requested_frames: usize) -> (frame: ScopeFrame)
        requires
            self.wf(),
        ensures
            frame.channel_count == self.spec_channel_count(),
            frame.samples@ == (if self.spec_channel_count() == 0 {
                Seq::empty()
            } else {
                self.spec_frames().subrange(
                    spec_window_bounds(
                        self.spec_frames().len(),
                        self.spec_capacity(),
                        self.spec_frames().len(),
                        requested_frames as nat,
                    ).0 as int,
                    self.spec_frames().len() as int,
                )
            }),
    {
        self.snapshot_ending_at(self.total_written, requested_frames)
    }

    /// Return one chronological snapshot ending at `end_exclusive`.
    ///
    /// `end_exclusive` uses absolute sample indexing in the capture timeline.
    pub fn snapshot_ending_at(&self, end_exclusive: u64, requested_frames: usize) -> (frame: ScopeFrame)
        requires
            self.wf(),
        ensures
            frame.channel_count == self.spec_channel_count(),
            frame.samples@ == (if self.spec_channel_count() == 0 {
                Seq::empty()
            } else {
                self.spec_frames().subrange(
                    spec_window_bounds(
                        self.spec_frames().len(),
                        self.spec_capacity(),
                        end_exclusive as nat,
                        requested_frames as nat,
                    ).0 as int,
                    spec_window_bounds(
                        self.spec_frames().len(),
                        self.spec_capacity(),
                        end_exclusive as nat,
                        requested_frames as nat,
                    ).1 as int,
                )
            }),
    {
        let available = self.total_written;
        let capacity = self.capacity as u64;
        let earliest_available = if available >= capacity {
            available - capacity
        } else {
            0
        };
        let end = if end_exclusive < earliest_available {
            earliest_available
        } else if end_exclusive > available {
            available
        } else {
            end_exclusive
        };
        let take = if requested_frames < self.capacity {
            requested_frames as u64
        } else {
            capacity
        };
        let start_candidate = if end >= take {
            end - take
        } else {
            0
        };
        let start = if start_candidate < earliest_available {
            earliest_available
        } else {
            start_candidate
        };
        let channel_count = self.last_channel_count;
        let ghost frames = self.frames@;
        if channel_count == 0 {
            return ScopeFrame { channel_count, samples: Vec::new() };
        }
        if start >= end {
            proof {
                assert(frames.subrange(start as int, end as int) =~= Seq::<SampleFrame>::empty());
            }
            return ScopeFrame { channel_count, samples: Vec::new() };
        }
        let mut samples: Vec<SampleFrame> = Vec::new();
        let mut absolute_index = start;
        while absolute_index < end
            invariant
                self.wf(),
                frames == self.frames@,
                capacity == self.capacity,
                spec_earliest_available(frames.len(), capacity as nat) <= start <= absolute_index
                    <= end <= frames.len(),
                samples@ == frames.subrange(start as int, absolute_index as int),
            decreases end - absolute_index,
        {
            let ring_index = (absolute_index % capacity) as usize;
            let first = self.storage_index(ring_index, 0);
            let second = self.storage_index(ring_index, 1);
            let value = [self.storage[first], self.storage[second]];
            proof {
                assert(frames[absolute_index as int][0] == value[0]);
                assert(value =~= frames[absolute_index as int]);
            }
            samples.push(value);
            absolute_index = absolute_index + 1;
            assert(samples@ =~= frames.subrange(start as int, absolute_index as int));
        }
        ScopeFrame { channel_count, samples }
    }

    /// Return total number of captured samples ever written.
    pub fn total_written_samples(&self) -> (total: u64)
        requires
            self.wf(),
        ensures
            total == self.spec_frames().len(),
    {
        self.total_written
    }

    /// Update the transport anchor used for deterministic scope window lookup.
    ///
    /// The anchor pairs the current absolute sample index with the host
    /// song position in beats (`f64` bits); a missing or non-finite position
    /// clears the anchor.
    pub fn set_transport_anchor(&mut self, song_pos_beats_bits: Option<u64>)
        requires
            old(self).wf(),
        ensures
            final(self).wf(),
            final(self).spec_frames() == old(self).spec_frames(),
            final(self).spec_capacity() == old(self).spec_capacity(),
            final(self).spec_channel_count() == old(self).spec_channel_count(),
            final(self).spec_anchor() == (match song_pos_beats_bits {
                Some(bits) => if f64_finite(bits) {
                    Some((old(self).spec_frames().len() as u64, bits))
                } else {
                    None
                },
                None => None,
            }),
    {
        self.transport_anchor_sample = self.total_written;
        let beats_bits = match song_pos_beats_bits {
            Some(bits) => if f64_bits_is_finite(bits) {
                bits
            } else {
                NONE_BEATS_SENTINEL
            },
            None => NONE_BEATS_SENTINEL,
        };
        self.transport_anchor_beats_bits = beats_bits;
    }

    /// Return the latest transport anchor as `(sample_index, song_pos_beats_bits)`.
    pub fn transport_anchor(&self) -> (anchor: Option<(u64, u64)>)
        ensures
            anchor == self.spec_anchor(),
    {
        if self.transport_anchor_beats_bits == NONE_BEATS_SENTINEL {
            None
        } else {
            Some((self.transport_anchor_sample, self.transport_anchor_beats_bits))
        }
    }
}

} // verus!
