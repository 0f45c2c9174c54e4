//! Xcope: tempo-aware, multi-channel oscilloscope core.
//!
//! The verified library holds the oscilloscope's parameter store, persisted
//! state format, transport mirror, capture ring buffer, editor layout and
//! host bus configuration. Audio samples, zoom factors, tempo, sample rate
//! and song positions are carried as IEEE-754 bit patterns (`u32` for `f32`,
//! `u64` for `f64`), exactly as the capture and parameter stores keep them.

pub mod bus;
pub mod constants;
pub mod gui;
pub mod ieee754;
pub mod params;
pub mod passthrough;
pub mod scope;
pub mod shared_registry;
pub mod state_io;
pub mod text;
pub mod transport;
pub mod transport_context;

use vstd::prelude::*;

use crate::constants::{CAPTURE_BUFFER_CAPACITY, MAX_SCOPE_WINDOW_SAMPLES};
use crate::ieee754::{f32_bits_finite_above, f32_finite_above, F32_INFINITY_BITS, F32_ONE_BITS};
use crate::params::XcopeParams;
use crate::scope::ScopeCaptureBuffer;
use crate::transport::TransportRuntime;

verus! {

/// Default sample rate, `48000.0f32` hertz, as its bit pattern.
pub const DEFAULT_SAMPLE_RATE_BITS: u32 = 0x473B_8000;

/// A sample rate is kept when it is finite and above one hertz; otherwise
/// the default rate stands in.
pub open spec fn spec_sanitize_sample_rate(sample_rate_bits: u32) -> u32 {
    if f32_finite_above(sample_rate_bits, F32_ONE_BITS) {
        sample_rate_bits
    } else {
        DEFAULT_SAMPLE_RATE_BITS
    }
}

/// The larger of an `f32` and `1.0`, on bit patterns: values at least one
/// (up to positive infinity) are kept; smaller values and NaN give `1.0`.
pub open spec fn spec_at_least_one(bits: u32) -> u32 {
    if F32_ONE_BITS <= bits <= F32_INFINITY_BITS {
        bits
    } else {
        F32_ONE_BITS
    }
}

/// Shared runtime resources used by processor, controller and UI.
pub struct XcopeShared {
    /// Shared parameter store.
    pub params: XcopeParams,
    /// Shared transport mirror.
    pub transport: TransportRuntime,
    /// Shared scope capture ring buffer.
    pub scope_buffer: ScopeCaptureBuffer,
    /// Active sample rate in hertz (`f32` bits); kept finite and above one
    /// hertz by [`XcopeShared::set_sample_rate_hz`].
    pub sample_rate_bits: u32,
}

impl XcopeShared {
    /// Well-formedness: the capture buffer is well formed and the sample
    /// rate is finite and above one hertz.
    pub open spec fn wf(&self) -> bool {
        &&& self.scope_buffer.wf()
        &&& f32_finite_above(self.sample_rate_bits, F32_ONE_BITS)
    }


    /// Create default shared runtime resources.
    pub fn new() -> (shared: Self)
        ensures
            shared.wf(),
            shared.params@ == crate::params::XcopeUiState::spec_default(),
            shared.transport@ == crate::transport::TransportSnapshot::spec_default(),
            shared.scope_buffer.spec_capacity() == CAPTURE_BUFFER_CAPACITY,
            shared.scope_buffer.spec_frames().len() == 0,
            shared.scope_buffer.spec_channel_count() == 0,
            shared.scope_buffer.spec_anchor() is None,
            shared.sample_rate_bits == DEFAULT_SAMPLE_RATE_BITS,
    {
        let capacity = if CAPTURE_BUFFER_CAPACITY < MAX_SCOPE_WINDOW_SAMPLES {
            CAPTURE_BUFFER_CAPACITY
        } else {
            MAX_SCOPE_WINDOW_SAMPLES
        };
        XcopeShared {
            params: XcopeParams::new(),
            transport: TransportRuntime::new(),
            scope_buffer: ScopeCaptureBuffer::new(capacity),
            sample_rate_bits: DEFAULT_SAMPLE_RATE_BITS,
        }
    }

    /// Set active sample rate in hertz (`f32` bits); a rate that is not
    /// finite or not above one hertz is replaced by 48 kHz.
    pub fn set_sample_rate_hz(&mut self, sample_rate_bits: u32)
        ensures
            final(self).sample_rate_bits == spec_sanitize_sample_rate(sample_rate_bits),
            final(self).params@ == old(self).params@,
            final(self).transport@ == old(self).transport@,
            final(self).scope_buffer == old(self).scope_buffer,
            old(self).wf() ==> final(self).wf(),
    {
        self.sample_rate_bits = if f32_bits_finite_above(sample_rate_bits, F32_ONE_BITS) {
            sample_rate_bits
        } else {
            DEFAULT_SAMPLE_RATE_BITS
        };
    }

    /// Read active sample rate in hertz (`f32` bits), at least one hertz.
    pub fn sample_rate_hz(&self) -> (sample_rate_bits: u32)
        ensures
            sample_rate_bits == spec_at_least_one(self.sample_rate_bits),
            self.wf() ==> sample_rate_bits == self.sample_rate_bits,
    {
        let bits = self.sample_rate_bits;
        if F32_ONE_BITS <= bits && bits <= F32_INFINITY_BITS {
            bits
        } else {
            F32_ONE_BITS
        }
    }
}

} // verus!
