//! Settings for loading audio

use vstd::prelude::*;

verus! {

/// Behavior when extracting audio channels from audio with multiple channels
#[derive(Clone, Copy, Debug, PartialEq, Eq, Structural)]
pub enum MultiChannelBehavior {
    /// Sum and average over all channels
    Downmix,
    /// Use only first channel of audio
    ExtractFirstChannel,
}

/// The number of frames to take from a decoded packet of `packet_frames` frames, when
/// `frames_taken` of the file's declared `total_frames` frames have been taken already
///
/// Decoders may provide more frames than a file declares; the frames past the declared count are
/// dropped, so that no more than `total_frames` frames are taken in all.
pub fn frames_to_take(packet_frames: usize, total_frames: usize, frames_taken: usize) -> (r: usize)
    requires
        frames_taken <= total_frames,
    ensures
        r == (if packet_frames <= total_frames - frames_taken {
            packet_frames
        } else {
            (total_frames - frames_taken) as usize
        }),
        frames_taken + r <= total_frames,
{
    let remaining = total_frames - frames_taken;
    if packet_frames <= remaining {
        packet_frames
    } else {
        remaining
    }
}

} // verus!
