//! Audio passthrough from the main input bus to the main output bus.
//!
//! The oscilloscope only observes audio: every output channel carries the
//! main input channel of the same index, sample for sample, and output
//! channels without such an input channel are silent.

use vstd::prelude::*;

verus! {

/// The input channel that feeds output channel `channel`, when the host
/// delivered one: `inputs` lists the main input bus's channels (`None` for a
/// channel without a readable buffer), and is itself `None` when the host
/// delivered no main input bus.
pub open spec fn passthrough_source(inputs: Option<&[Option<&[u32]>]>, channel: int) -> Option<Seq<u32>> {
    match inputs {
        Some(list) => if 0 <= channel < list@.len() {
            match list@[channel] {
                Some(samples) => Some(samples@),
                None => None,
            }
        } else {
            None
        },
        None => None,
    }
}

/// Fill output channel `channel` for one block: a copy of the matching main
/// input channel, or silence (`0.0`) when there is none. Samples are `f32`
/// bit patterns, copied unchanged.
pub fn fill_passthrough_channel(output: &mut [u32], channel: usize, inputs: Option<&[Option<&[u32]>]>)
    requires
        passthrough_source(inputs, channel as int) matches Some(samples) ==> samples.len()
            >= old(output)@.len(),
    ensures
        final(output)@.len() == old(output)@.len(),
        forall|i: int|
            0 <= i < final(output)@.len() ==> #[trigger] final(output)@[i] == match passthrough_source(
                inputs,
                channel as int,
            ) {
                Some(samples) => samples[i],
                None => 0u32,
            },
{
    let source: Option<&[u32]> = match inputs {
        Some(list) => if channel < list.len() {
            list[channel]
        } else {
            None
        },
        None => None,
    };
    let len = output.len();
    let mut i: usize = 0;
    while i < len
        invariant
            i <= len,
            len == output@.len(),
            source matches Some(s) ==> passthrough_source(inputs, channel as int) == Some(s@),
            source is None ==> passthrough_source(inputs, channel as int) is None,
            passthrough_source(inputs, channel as int) matches Some(samples) ==> samples.len()
                >= len,
            forall|k: int|
                0 <= k < i ==> #[trigger] output@[k] == match passthrough_source(
                    inputs,
                    channel as int,
                ) {
                    Some(samples) => samples[k],
                    None => 0u32,
                },
        decreases len - i,
    {
        let value: u32 = match source {
            Some(samples) => samples[i],
            None => 0,
        };
        output[i] = value;
        i = i + 1;
    }
}

} // verus!
