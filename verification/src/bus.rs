//! Host bus layout: supported speaker arrangements, per-bus layouts and the
//! active-input mask.
//!
//! The plugin has two audio inputs (the main track input and a sidechain)
//! and one output. Each bus is mono or stereo.

use vstd::prelude::*;

use crate::constants::MAX_VISUAL_CHANNELS;

verus! {

/// Number of audio input buses: one per visual channel.
pub const INPUT_SOURCE_BUS_COUNT: usize = MAX_VISUAL_CHANNELS;

/// Speaker-arrangement code of a mono bus (the center speaker bit).
pub const SPEAKER_ARR_MONO: u64 = 0x8_0000;

/// Speaker-arrangement code of a stereo bus (left and right speaker bits).
pub const SPEAKER_ARR_STEREO: u64 = 0x3;

/// Channel layout of one audio bus.
#[derive(Clone, Copy, Debug, PartialEq, Eq, Structural)]
pub enum BusChannelLayout {
    /// One channel.
    Mono,
    /// Two channels.
    Stereo,
}

/// Direction of an audio bus.
#[derive(Clone, Copy, Debug, PartialEq, Eq, Structural)]
pub enum BusDirection {
    /// Host-to-plugin audio.
    Input,
    /// Plugin-to-host audio.
    Output,
}

impl BusChannelLayout {
    /// Stored code of a layout: 1 for mono, 2 for stereo.
    pub open spec fn spec_to_code(self) -> u32 {
        match self {
            BusChannelLayout::Mono => 1,
            BusChannelLayout::Stereo => 2,
        }
    }

    /// Layout of a stored code; unknown codes read as stereo.
    pub open spec fn spec_from_code(value: u32) -> Self {
        if value == 1 {
            BusChannelLayout::Mono
        } else {
            BusChannelLayout::Stereo
        }
    }

    /// Layout of a speaker arrangement, when it is mono or stereo.
    pub open spec fn spec_from_arrangement(arrangement: u64) -> Option<Self> {
        if arrangement == SPEAKER_ARR_MONO {
            Some(BusChannelLayout::Mono)
        } else if arrangement == SPEAKER_ARR_STEREO {
            Some(BusChannelLayout::Stereo)
        } else {
            None
        }
    }

    /// Speaker arrangement of a layout.
    pub open spec fn spec_to_arrangement(self) -> u64 {
        match self {
            BusChannelLayout::Mono => SPEAKER_ARR_MONO,
            BusChannelLayout::Stereo => SPEAKER_ARR_STEREO,
        }
    }

    /// Channel count of a layout.
    pub open spec fn spec_channel_count(self) -> i32 {
        match self {
            BusChannelLayout::Mono => 1,
            BusChannelLayout::Stereo => 2,
        }
    }

    /// Return the stored code of this layout.
    pub fn to_code(self) -> (code: u32)
        ensures
            code == self.spec_to_code(),
    {
        match self {
            BusChannelLayout::Mono => 1,
            BusChannelLayout::Stereo => 2,
        }
    }

    /// Resolve a layout from its stored code.
    pub fn from_code(value: u32) -> (layout: Self)
        ensures
            layout == Self::spec_from_code(value),
    {
        match value {
            1 => BusChannelLayout::Mono,
            _ => BusChannelLayout::Stereo,
        }
    }

    /// Resolve a layout from a speaker arrangement; `None` when the
    /// arrangement is neither mono nor stereo.
    pub fn from_arrangement(arrangement: u64) -> (layout: Option<Self>)
        ensures
            layout == Self::spec_from_arrangement(arrangement),
    {
        if arrangement == SPEAKER_ARR_MONO {
            Some(BusChannelLayout::Mono)
        } else if arrangement == SPEAKER_ARR_STEREO {
            Some(BusChannelLayout::Stereo)
        } else {
            None
        }
    }

    /// Return the speaker arrangement of this layout.
    pub fn to_arrangement(self) -> (arrangement: u64)
        ensures
            arrangement == self.spec_to_arrangement(),
    {
        match self {
            BusChannelLayout::Mono => SPEAKER_ARR_MONO,
            BusChannelLayout::Stereo => SPEAKER_ARR_STEREO,
        }
    }

    /// Return the channel count of this layout.
    pub fn channel_count(self) -> (count: i32)
        ensures
            count == self.spec_channel_count(),
    {
        match self {
            BusChannelLayout::Mono => 1,
            BusChannelLayout::Stereo => 2,
        }
    }
}

/// Layouts round-trip through their codes and arrangements.
pub proof fn lemma_layout_roundtrips(layout: BusChannelLayout)
    ensures
        BusChannelLayout::spec_from_code(layout.spec_to_code()) == layout,
        BusChannelLayout::spec_from_arrangement(layout.spec_to_arrangement()) == Some(layout),
{
}

/// Return `true` when the arrangement maps to a supported mono/stereo layout.
pub fn is_supported_bus_arrangement(arrangement: u64) -> (supported: bool)
    ensures
        supported == BusChannelLayout::spec_from_arrangement(arrangement) is Some,
{
    BusChannelLayout::from_arrangement(arrangement).is_some()
}

/// Outcome of a host request to set the bus arrangements.
#[derive(Clone, Copy, Debug, PartialEq, Eq, Structural)]
pub enum ArrangementOutcome {
    /// The arrangements were accepted and stored.
    Accepted,
    /// The arrangements are not supported; nothing changed.
    Rejected,
    /// The request was malformed (missing arrangement data); nothing changed.
    InvalidArgument,
}

/// Description of one audio bus for the host.
#[derive(Clone, Copy, Debug, PartialEq, Eq)]
pub struct BusDescription {
    /// Number of channels on the bus.
    pub channel_count: i32,
    /// Host-visible bus name.
    pub name: &'static str,
    /// Whether this is a main bus (otherwise auxiliary).
    pub is_main: bool,
    /// Whether the host should activate the bus by default.
    pub default_active: bool,
}

/// Input- and output-bus layouts and the active-input mask shared by the
/// processor.
#[derive(Debug)]
pub struct BusConfiguration {
    output_layout: u32,
    input_layouts: [u32; INPUT_SOURCE_BUS_COUNT],
    input_active_mask: u32,
}

/// The model of a bus configuration.
pub struct BusModel {
    /// Layout of the output bus.
    pub output: BusChannelLayout,
    /// Layouts of the input buses.
    pub inputs: Seq<BusChannelLayout>,
    /// Active-input mask: bit `k` is set while input bus `k` is active.
    pub active_mask: u32,
}

/// Mask bit of input bus `index`.
pub open spec fn spec_input_bit(index: int) -> u32 {
    if index == 0 {
        1
    } else {
        2
    }
}

/// Mask with the first `count` input buses active.
pub open spec fn spec_first_inputs_mask(count: nat) -> u32 {
    if count == 0 {
        0
    } else if count == 1 {
        1
    } else {
        3
    }
}

impl View for BusConfiguration {
    type V = BusModel;

    closed spec fn view(&self) -> BusModel {
        BusModel {
            output: BusChannelLayout::spec_from_code(self.output_layout),
            inputs: seq![
                BusChannelLayout::spec_from_code(self.input_layouts[0]),
                BusChannelLayout::spec_from_code(self.input_layouts[1]),
            ],
            active_mask: self.input_active_mask,
        }
    }
}

impl Default for BusConfiguration {
    fn default() -> (config: Self)
        ensures
            config@.output == BusChannelLayout::Stereo,
            config@.inputs == seq![BusChannelLayout::Stereo, BusChannelLayout::Stereo],
            config@.active_mask == 1,
    {
        BusConfiguration {
            output_layout: BusChannelLayout::Stereo.to_code(),
            input_layouts: [BusChannelLayout::Stereo.to_code(), BusChannelLayout::Stereo.to_code()],
            input_active_mask: 1,
        }
    }
}

impl BusConfiguration {
    /// Layout of the output bus.
    pub fn output_layout(&self) -> (layout: BusChannelLayout)
        ensures
            layout == self@.output,
    {
        BusChannelLayout::from_code(self.output_layout)
    }

    /// Layout of one input bus.
    pub fn input_layout(&self, index: usize) -> (layout: BusChannelLayout)
        requires
            index < INPUT_SOURCE_BUS_COUNT,
        ensures
            layout == self@.inputs[index as int],
    {
        BusChannelLayout::from_code(self.input_layouts[index])
    }

    /// Active-input mask.
    pub fn input_active_mask(&self) -> (mask: u32)
        ensures
            mask == self@.active_mask,
    {
        self.input_active_mask
    }

    /// Mark one input bus active or inactive.
    pub fn set_input_active(&mut self, index: usize, active: bool)
        requires
            index < INPUT_SOURCE_BUS_COUNT,
        ensures
            final(self)@.output == old(self)@.output,
            final(self)@.inputs == old(self)@.inputs,
            final(self)@.active_mask == if active {
                old(self)@.active_mask | spec_input_bit(index as int)
            } else {
                old(self)@.active_mask & !spec_input_bit(index as int)
            },
    {
        let bit: u32 = if index == 0 {
            1
        } else {
            2
        };
        if active {
            self.input_active_mask = self.input_active_mask | bit;
        } else {
            self.input_active_mask = self.input_active_mask & !bit;
        }
    }

    /// Store the output layout and the input layouts (inputs past the given
    /// ones are stereo), and activate exactly the given inputs.
    pub fn write_arrangements(&mut self, output_layout: BusChannelLayout, input_layouts: &[BusChannelLayout])
        ensures
            final(self)@.output == output_layout,
            forall|k: int|
                0 <= k < INPUT_SOURCE_BUS_COUNT ==> #[trigger] final(self)@.inputs[k] == if k
                    < input_layouts@.len() {
                    input_layouts@[k]
                } else {
                    BusChannelLayout::Stereo
                },
            final(self)@.active_mask == spec_first_inputs_mask(
                if input_layouts@.len() < INPUT_SOURCE_BUS_COUNT {
                    input_layouts@.len()
                } else {
                    INPUT_SOURCE_BUS_COUNT as nat
                },
            ),
    {
        self.output_layout = output_layout.to_code();
        let first = if 0 < input_layouts.len() {
            input_layouts[0]
        } else {
            BusChannelLayout::Stereo
        };
        let second = if 1 < input_layouts.len() {
            input_layouts[1]
        } else {
            BusChannelLayout::Stereo
        };
        self.input_layouts = [first.to_code(), second.to_code()];
        let active_count = if input_layouts.len() < INPUT_SOURCE_BUS_COUNT {
            input_layouts.len()
        } else {
            INPUT_SOURCE_BUS_COUNT
        };
        self.input_active_mask = if active_count == 0 {
            0
        } else if active_count == 1 {
            1
        } else {
            3
        };
        proof {
            lemma_layout_roundtrips(first);
            lemma_layout_roundtrips(second);
            lemma_layout_roundtrips(output_layout);
        }
    }

    /// Handle a host request to set the bus arrangements.
    ///
    /// `num_ins` and `num_outs` are the host's bus counts; `inputs` and
    /// `output` carry the arrangement data when the host supplied it. The
    /// request is rejected unless there are one or two inputs and exactly one
    /// output; it is malformed when the data is missing; it is rejected
    /// unless every arrangement is mono or stereo and the main input matches
    /// the output. Accepted arrangements are stored and exactly the given
    /// inputs become active.
    pub fn set_bus_arrangements(
        &mut self,
        num_ins: i32,
        num_outs: i32,
        inputs: Option<&[u64]>,
        output: Option<u64>,
    ) -> (outcome: ArrangementOutcome)
        requires
            inputs matches Some(list) ==> list@.len() == num_ins,
        ensures
            outcome == spec_arrangement_outcome(num_ins, num_outs, inputs, output),
            outcome != ArrangementOutcome::Accepted ==> final(self)@ == old(self)@,
            outcome == ArrangementOutcome::Accepted ==> {
                &&& final(self)@.output == BusChannelLayout::spec_from_arrangement(output->Some_0)->Some_0
                &&& forall|k: int|
                    0 <= k < INPUT_SOURCE_BUS_COUNT ==> #[trigger] final(self)@.inputs[k] == if k
                        < num_ins {
                        BusChannelLayout::spec_from_arrangement(inputs->Some_0@[k])->Some_0
                    } else {
                        BusChannelLayout::Stereo
                    }
                &&& final(self)@.active_mask == spec_first_inputs_mask(num_ins as nat)
            },
    {
        if num_ins <= 0 || num_ins > INPUT_SOURCE_BUS_COUNT as i32 || num_outs != 1 {
            return ArrangementOutcome::Rejected;
        }
        let (input_arrangements, output_arrangement) = match (inputs, output) {
            (Some(list), Some(arrangement)) => (list, arrangement),
            _ => return ArrangementOutcome::InvalidArgument,
        };
        let output_layout = match BusChannelLayout::from_arrangement(output_arrangement) {
            Some(layout) => layout,
            None => return ArrangementOutcome::Rejected,
        };
        if !is_supported_bus_arrangement(input_arrangements[0]) || input_arrangements[0]
            != output_arrangement {
            return ArrangementOutcome::Rejected;
        }
        let first = match BusChannelLayout::from_arrangement(input_arrangements[0]) {
            Some(layout) => layout,
            None => return ArrangementOutcome::Rejected,
        };
        let mut layouts: Vec<BusChannelLayout> = Vec::new();
        layouts.push(first);
        if input_arrangements.len() > 1 {
            match BusChannelLayout::from_arrangement(input_arrangements[1]) {
                Some(layout) => layouts.push(layout),
                None => return ArrangementOutcome::Rejected,
            }
        }
        self.write_arrangements(output_layout, layouts.as_slice());
        ArrangementOutcome::Accepted
    }

    /// Activate or deactivate one bus at the host's request; `false` when
    /// the bus does not exist (negative index, input past the input buses,
    /// output other than the first).
    pub fn activate_bus(&mut self, direction: BusDirection, index: i32, active: bool) -> (ok: bool)
        ensures
            ok == (0 <= index && match direction {
                BusDirection::Input => index < INPUT_SOURCE_BUS_COUNT,
                BusDirection::Output => index == 0,
            }),
            ok && direction == BusDirection::Input ==> final(self)@.active_mask == if active {
                old(self)@.active_mask | spec_input_bit(index as int)
            } else {
                old(self)@.active_mask & !spec_input_bit(index as int)
            },
            ok && direction == BusDirection::Input ==> final(self)@.inputs == old(self)@.inputs
                && final(self)@.output == old(self)@.output,
            !(ok && direction == BusDirection::Input) ==> final(self)@ == old(self)@,
    {
        if index < 0 {
            return false;
        }
        match direction {
            BusDirection::Input => {
                if index as usize >= INPUT_SOURCE_BUS_COUNT {
                    return false;
                }
                self.set_input_active(index as usize, active);
                true
            },
            BusDirection::Output => index == 0,
        }
    }

    /// Speaker arrangement of one bus; `None` when the bus does not exist.
    pub fn bus_arrangement(&self, direction: BusDirection, index: i32) -> (arrangement: Option<u64>)
        ensures
            arrangement == (match direction {
                BusDirection::Input => if 0 <= index < INPUT_SOURCE_BUS_COUNT {
                    Some(self@.inputs[index as int].spec_to_arrangement())
                } else {
                    None
                },
                BusDirection::Output => if index == 0 {
                    Some(self@.output.spec_to_arrangement())
                } else {
                    None
                },
            }),
    {
        if index < 0 {
            return None;
        }
        match direction {
            BusDirection::Input => if (index as usize) < INPUT_SOURCE_BUS_COUNT {
                Some(self.input_layout(index as usize).to_arrangement())
            } else {
                None
            },
            BusDirection::Output => if index == 0 {
                Some(self.output_layout().to_arrangement())
            } else {
                None
            },
        }
    }

    /// Describe one bus for the host; `None` when the bus does not exist.
    ///
    /// Input 0 is the main input, active by default; input 1 is the
    /// sidechain, auxiliary and inactive by default; output 0 is the main
    /// output, active by default. Channel counts follow the stored layouts.
    pub fn bus_info(&self, direction: BusDirection, index: i32) -> (info: Option<BusDescription>)
        ensures
            info is Some <==> (0 <= index && match direction {
                BusDirection::Input => index < INPUT_SOURCE_BUS_COUNT,
                BusDirection::Output => index == 0,
            }),
            info matches Some(description) ==> description == (match direction {
                BusDirection::Input => BusDescription {
                    channel_count: self@.inputs[index as int].spec_channel_count(),
                    name: if index == 0 {
                        "Main Input"
                    } else {
                        "Sidechain Input"
                    },
                    is_main: index == 0,
                    default_active: index == 0,
                },
                BusDirection::Output => BusDescription {
                    channel_count: self@.output.spec_channel_count(),
                    name: "Output",
                    is_main: true,
                    default_active: true,
                },
            }),
    {
        if index < 0 {
            return None;
        }
        match direction {
            BusDirection::Input => {
                if index as usize >= INPUT_SOURCE_BUS_COUNT {
                    return None;
                }
                let slot = index as usize;
                Some(
                    BusDescription {
                        channel_count: self.input_layout(slot).channel_count(),
                        name: if slot == 0 {
                            "Main Input"
                        } else {
                            "Sidechain Input"
                        },
                        is_main: slot == 0,
                        default_active: slot == 0,
                    },
                )
            },
            BusDirection::Output => {
                if index != 0 {
                    return None;
                }
                Some(
                    BusDescription {
                        channel_count: self.output_layout().channel_count(),
                        name: "Output",
                        is_main: true,
                        default_active: true,
                    },
                )
            },
        }
    }
}

/// Number of audio buses in a direction: one per visual channel for input,
/// one for output.
pub fn bus_count(direction: BusDirection) -> (count: i32)
    ensures
        count == (match direction {
            BusDirection::Input => INPUT_SOURCE_BUS_COUNT as i32,
            BusDirection::Output => 1,
        }),
{
    match direction {
        BusDirection::Input => INPUT_SOURCE_BUS_COUNT as i32,
        BusDirection::Output => 1,
    }
}

/// Outcome of a bus-arrangement request (see
/// [`BusConfiguration::set_bus_arrangements`]).
pub open spec fn spec_arrangement_outcome(
    num_ins: i32,
    num_outs: i32,
    inputs: Option<&[u64]>,
    output: Option<u64>,
) -> ArrangementOutcome {
    if num_ins <= 0 || num_ins > INPUT_SOURCE_BUS_COUNT || num_outs != 1 {
        ArrangementOutcome::Rejected
    } else if inputs is None || output is None {
        ArrangementOutcome::InvalidArgument
    } else {
        let list = inputs->Some_0@;
        let out = output->Some_0;
        if BusChannelLayout::spec_from_arrangement(out) is None {
            ArrangementOutcome::Rejected
        } else if list[0] != out {
            ArrangementOutcome::Rejected
        } else if forall|k: int|
            0 <= k < list.len() ==> #[trigger] BusChannelLayout::spec_from_arrangement(list[k]) is Some {
            ArrangementOutcome::Accepted
        } else {
            ArrangementOutcome::Rejected
        }
    }
}

} // verus!
