//! Render-sampling partition.
//!
//! Min/max decimation projects many samples onto a fixed number of pixel
//! columns. The partition decided here gives every column a contiguous,
//! non-empty range of sample indices, and every sample belongs to at least
//! one column, so dense spikes survive decimation.

use vstd::arithmetic::div_mod::lemma_fundamental_div_mod;
use vstd::prelude::*;

use crate::constants::MAX_VISUAL_CHANNELS;

use super::capture_buffer::ScopeFrame;

verus! {

/// Sample range `[start, end)` of one column: the column's share of the
/// samples, rounded down at both ends, widened to one sample when the share
/// is empty.
pub open spec fn spec_column_range(column: nat, sample_count: nat, columns: nat) -> (nat, nat) {
    let start = column * sample_count / columns;
    let raw_end = (column + 1) * sample_count / columns;
    (start, if raw_end <= start {
        if start + 1 < sample_count {
            start + 1
        } else {
            sample_count
        }
    } else {
        raw_end
    })
}

/// The column a sample index is assigned to in the covering argument.
pub open spec fn spec_column_of(sample: nat, sample_count: nat, columns: nat) -> nat {
    (((sample + 1) * columns - 1) as nat / sample_count) as nat
}

/// Every column range is a non-empty range of valid sample indices.
pub proof fn lemma_column_range_valid(column: nat, sample_count: nat, columns: nat)
    requires
        column < columns,
        sample_count > 0,
    ensures
        ({
            let (start, end) = spec_column_range(column, sample_count, columns);
            start < end <= sample_count
        }),
{
    let n = sample_count as int;
    let k = columns as int;
    let c = column as int;
    lemma_fundamental_div_mod(c * n, k);
    lemma_fundamental_div_mod((c + 1) * n, k);
    let start = (c * n) / k;
    let raw_end = ((c + 1) * n) / k;
    assert(start < n) by (nonlinear_arith)
        requires
            c * n == k * start + (c * n) % k,
            0 <= (c * n) % k < k,
            0 <= c < k,
            n > 0,
    ;
    assert(raw_end <= n) by (nonlinear_arith)
        requires
            (c + 1) * n == k * raw_end + ((c + 1) * n) % k,
            0 <= ((c + 1) * n) % k < k,
            0 <= c < k,
            n > 0,
    ;
}

/// Every sample lies in some column's range: decimation loses no sample.
pub proof fn lemma_every_sample_in_a_column(sample: nat, sample_count: nat, columns: nat)
    requires
        sample < sample_count,
        columns > 0,
    ensures
        ({
            let column = spec_column_of(sample, sample_count, columns);
            let (start, end) = spec_column_range(column, sample_count, columns);
            &&& column < columns
            &&& start <= sample < end
        }),
{
    let n = sample_count as int;
    let k = columns as int;
    let s = sample as int;
    let x = (s + 1) * k - 1;
    assert(x >= 0) by (nonlinear_arith)
        requires
            x == (s + 1) * k - 1,
            k > 0,
            s >= 0,
    ;
    lemma_fundamental_div_mod(x, n);
    let c = x / n;
    assert(c == spec_column_of(sample, sample_count, columns));
    assert(c < k && c >= 0) by (nonlinear_arith)
        requires
            x == n * c + x % n,
            0 <= x % n < n,
            x == (s + 1) * k - 1,
            s < n,
            k > 0,
            x >= 0,
    ;
    lemma_fundamental_div_mod(c * n, k);
    lemma_fundamental_div_mod((c + 1) * n, k);
    let start = (c * n) / k;
    let raw_end = ((c + 1) * n) / k;
    assert(start <= s) by (nonlinear_arith)
        requires
            c * n == k * start + (c * n) % k,
            0 <= (c * n) % k,
            x == n * c + x % n,
            0 <= x % n,
            x == (s + 1) * k - 1,
            k > 0,
    ;
    assert(raw_end >= s + 1) by (nonlinear_arith)
        requires
            (c + 1) * n == k * raw_end + ((c + 1) * n) % k,
            ((c + 1) * n) % k < k,
            x == n * c + x % n,
            x % n < n,
            x == (s + 1) * k - 1,
            k > 0,
    ;
    lemma_column_range_valid(c as nat, sample_count, columns);
}

/// Resolve the sample range `[start, end)` of one render column.
pub fn column_range(column: usize, sample_count: usize, columns: usize) -> (range: (usize, usize))
    requires
        column < columns,
        sample_count > 0,
    ensures
        range.0 as nat == spec_column_range(column as nat, sample_count as nat, columns as nat).0,
        range.1 as nat == spec_column_range(column as nat, sample_count as nat, columns as nat).1,
        range.0 < range.1 <= sample_count,
{
    proof {
        lemma_column_range_valid(column as nat, sample_count as nat, columns as nat);
        assert((column as u128) * (sample_count as u128) <= u128::MAX) by (nonlinear_arith)
            requires
                column <= usize::MAX,
                sample_count <= usize::MAX,
        ;
        assert(((column + 1) as u128) * (sample_count as u128) <= u128::MAX) by (nonlinear_arith)
            requires
                column < usize::MAX,
                sample_count <= usize::MAX,
        ;
    }
    let start_wide = (column as u128) * (sample_count as u128) / (columns as u128);
    let end_wide = ((column as u128) + 1) * (sample_count as u128) / (columns as u128);
    let start = start_wide as usize;
    let raw_end = end_wide as usize;
    let end = if raw_end <= start {
        if start + 1 < sample_count {
            start + 1
        } else {
            sample_count
        }
    } else {
        raw_end
    };
    (start, end)
}

/// Samples of one captured channel, in chronological order; empty when the
/// channel is outside the frame's captured channels.
pub fn frame_channel_samples(frame: &ScopeFrame, channel_index: usize) -> (samples: Vec<u32>)
    requires
        channel_index < MAX_VISUAL_CHANNELS,
    ensures
        channel_index >= frame.channel_count ==> samples@.len() == 0,
        channel_index < frame.channel_count ==> samples@ == Seq::new(
            frame.samples@.len(),
            |i: int| frame.samples@[i][channel_index as int],
        ),
{
    let mut samples: Vec<u32> = Vec::new();
    if channel_index >= frame.channel_count {
        return samples;
    }
    let mut index: usize = 0;
    while index < frame.samples.len()
        invariant
            index <= frame.samples@.len(),
            channel_index < MAX_VISUAL_CHANNELS,
            samples@ == Seq::new(index as nat, |i: int| frame.samples@[i][channel_index as int]),
        decreases frame.samples@.len() - index,
    {
        let value = frame.samples[index];
        samples.push(value[channel_index]);
        index = index + 1;
        assert(samples@ =~= Seq::new(index as nat, |i: int| frame.samples@[i][channel_index as int]));
    }
    samples
}

} // verus!
