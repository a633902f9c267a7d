//! Buffer marshaling.
//!
//! A rendered frame arrives as floating-point samples (carried as raw bit
//! patterns); the marshaler quantizes every sample to one byte and hands the
//! caller an owned allocation together with its length.

use vstd::prelude::*;

verus! {

use crate::quantize::quantize_sample_bits;
use crate::quantize::quantize_spec;

/// An owned byte allocation plus its length, handed to the foreign caller as
/// one opaque value that must be released exactly once.
pub struct Array {
    pub data: Vec<u8>,
    pub len: usize,
}

impl Array {
    /// The recorded length always equals the allocation's length.
    pub open spec fn wf(&self) -> bool {
        self.len == self.data@.len()
    }
}

/// Quantizes a frame's samples into an interleaved byte buffer.
///
/// The frame supplies `width * height * channels` samples in its native
/// channel interleaving, row-major; the returned buffer holds exactly one
/// byte per sample, in the same order.
pub fn marshal_frame(width: usize, height: usize, channels: usize, samples: &Vec<u32>) -> (r: Array)
    requires
        samples@.len() == width * height * channels,
    ensures
        r.wf(),
        r.data@.len() == width * height * channels,
        forall|i: int| 0 <= i < samples@.len() ==> r.data@[i] == quantize_spec(samples@[i]),
{
    let mut out: Vec<u8> = Vec::new();
    let mut i: usize = 0;
    while i < samples.len()
        invariant
            i <= samples@.len(),
            out@.len() == i,
            forall|j: int| 0 <= j < i ==> out@[j] == quantize_spec(samples@[j]),
        decreases samples@.len() - i,
    {
        let b = quantize_sample_bits(samples[i]);
        out.push(b);
        i = i + 1;
    }
    let n = out.len();
    Array { data: out, len: n }
}

/// Releases a marshaled buffer.  `None` stands for the foreign caller's null
/// pointer and is a no-op; a present buffer is dropped, freeing its bytes
/// exactly once.
pub fn free_array(arr: Option<Array>) {
    match arr {
        None => (),
        Some(_buffer) => (),
    }
}

} // verus!
