//! Audio-processing options handed to the external transcoding
//! collaborator.

use vstd::prelude::*;

verus! {

/// Quality tiers on the processing side, where lossless output is also
/// possible.
#[derive(Debug, Clone, Copy, PartialEq, Eq, Structural)]
pub enum AudioQuality {
    Low,
    Medium,
    High,
    Best,
    Lossless,
}

impl AudioQuality {
    /// The bitrate of a lossy tier in kbit/s; lossless output has no
    /// fixed bitrate and reads as zero.
    pub fn get_bitrate(self) -> (r: u32)
        ensures
            r == (match self {
                AudioQuality::Low => 128u32,
                AudioQuality::Medium => 192u32,
                AudioQuality::High => 256u32,
                AudioQuality::Best => 320u32,
                AudioQuality::Lossless => 0u32,
            }),
    {
        match self {
            AudioQuality::Low => 128,
            AudioQuality::Medium => 192,
            AudioQuality::High => 256,
            AudioQuality::Best => 320,
            AudioQuality::Lossless => 0,
        }
    }

    /// Whether this tier asks for lossless output.
    pub fn is_lossless(self) -> (r: bool)
        ensures
            r == (self == AudioQuality::Lossless),
    {
        matches!(self, AudioQuality::Lossless)
    }
}

/// One transcoding request's options.
#[derive(Debug, Clone)]
pub struct ProcessingOptions {
    pub input_format: String,
    pub output_format: String,
    pub quality: AudioQuality,
    pub bitrate: Option<u32>,
    pub sample_rate: Option<u32>,
    pub channels: Option<u8>,
}

} // verus!
