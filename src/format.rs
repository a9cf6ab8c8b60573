use vstd::prelude::*;

verus! {

/// Channel layout and rate of a capture stream and of the buffers it produces.
#[derive(Clone, Copy, Debug, PartialEq, Eq, Structural)]
pub struct AudioFormat {
    pub channels: u16,
    pub sample_rate: u32,
}

impl AudioFormat {
    /// At least one channel and a positive rate.
    pub open spec fn wf(&self) -> bool {
        self.channels >= 1 && self.sample_rate > 0
    }

    /// Builds a format, refusing zero channels or a zero rate.
    pub fn new(channels: u16, sample_rate: u32) -> (r: Option<AudioFormat>)
        ensures
            r matches Some(f) <==> (channels >= 1 && sample_rate > 0),
            r matches Some(f) ==> f.channels == channels && f.sample_rate == sample_rate && f.wf(),
    {
        if channels >= 1 && sample_rate > 0 {
            Some(AudioFormat { channels, sample_rate })
        } else {
            None
        }
    }
}

/// Identity of one native capture stream, as handed out by the device layer.
#[derive(Clone, Copy, Debug, PartialEq, Eq, Structural)]
pub struct StreamKey(pub u64);

} // verus!
