//! Control state of the echo canceller's reference tap.
//!
//! The signal processing itself works on floating-point samples and stays with the audio layer;
//! this is the part that decides when the tap is active, counts skipped frames and marks the
//! reference stream as out of step.

use vstd::prelude::*;

verus! {

/// The tap's control flags.
pub struct AecControl {
    /// The tap is installed and collects reference audio.
    pub active: bool,
    /// Capture frames dropped since the last resynchronisation.
    pub skipped: usize,
    /// The reference sample rate.
    pub rate: u32,
    /// The reference stream lost samples and must be realigned.
    pub desync: bool,
    /// A reference buffer is attached.
    pub reference_attached: bool,
}

/// Records that the capture dropped `frames` frames, when the tap is active (the count wraps
/// around at the end of its range).
pub fn skip_reference(ctl: &mut AecControl, frames: usize)
    ensures
        !old(ctl).active ==> *final(ctl) == *old(ctl),
        old(ctl).active ==> *final(ctl) == (AecControl {
            skipped: (if old(ctl).skipped + frames > usize::MAX {
                old(ctl).skipped + frames - usize::MAX - 1
            } else {
                old(ctl).skipped + frames
            }) as usize,
            ..*old(ctl)
        }),
{
    if !ctl.active {
        return;
    }
    ctl.skipped = ctl.skipped.wrapping_add(frames);
}

/// Uninstalls the tap: it stops collecting and its reference buffer is dropped.
pub fn stop(ctl: &mut AecControl)
    ensures
        *final(ctl) == (AecControl { active: false, reference_attached: false, ..*old(ctl) }),
{
    ctl.active = false;
    ctl.reference_attached = false;
}

/// Sets the reference rate after a stream was (re)built; the reference must be realigned.
pub fn set_rate(ctl: &mut AecControl, rate: u32)
    ensures
        *final(ctl) == (AecControl { rate, desync: true, ..*old(ctl) }),
{
    ctl.rate = rate;
    ctl.desync = true;
}

} // verus!
