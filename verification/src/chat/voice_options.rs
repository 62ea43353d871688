//! Voice chat options: sequence numbers, the voice toggle and the audio preferences.

use vstd::prelude::*;

verus! {

/// The loudest volume setting, in percent.
pub const VOLUME_MAX: u32 = 200;

/// The options of a voice session. Both volumes stay within [`VOLUME_MAX`] in every state: the
/// fields are private and every way of making or changing the options clamps them.
pub struct VoiceOptions {
    seq: usize,
    server_seq: usize,
    use_voice: bool,
    input_volume: u32,
    output_volume: u32,
    noise_suppression: bool,
    automatic_gain: bool,
    device_generation: usize,
}

/// The options of a voice session, as values.
pub struct VoiceOptionsView {
    /// Packet sequence number, client to server.
    pub seq: usize,
    /// Packet sequence number, server to client.
    pub server_seq: usize,
    /// Whether voice is in use.
    pub use_voice: bool,
    /// Microphone volume, in percent.
    pub input_volume: u32,
    /// Playback volume, in percent.
    pub output_volume: u32,
    /// Run the denoiser on captured frames.
    pub noise_suppression: bool,
    /// Normalize captured frames.
    pub automatic_gain: bool,
    /// Bumped whenever the configured devices change; a running session rebuilds its streams
    /// when it moves.
    pub device_generation: usize,
}

impl View for VoiceOptions {
    type V = VoiceOptionsView;

    closed spec fn view(&self) -> VoiceOptionsView {
        VoiceOptionsView {
            seq: self.seq,
            server_seq: self.server_seq,
            use_voice: self.use_voice,
            input_volume: self.input_volume,
            output_volume: self.output_volume,
            noise_suppression: self.noise_suppression,
            automatic_gain: self.automatic_gain,
            device_generation: self.device_generation,
        }
    }
}

impl VoiceOptions {
    /// Both volumes are within the supported range.
    #[verifier::type_invariant]
    closed spec fn volumes_in_range(self) -> bool {
        self.input_volume <= VOLUME_MAX && self.output_volume <= VOLUME_MAX
    }
}

/// `percent` kept inside the supported range: at most [`VOLUME_MAX`].
pub open spec fn spec_clamp_volume(percent: u32) -> u32 {
    if percent <= VOLUME_MAX {
        percent
    } else {
        VOLUME_MAX
    }
}

/// Keeps a volume inside the supported range.
pub fn clamp_volume(percent: u32) -> (r: u32)
    ensures
        r == spec_clamp_volume(percent),
{
    if percent <= VOLUME_MAX {
        percent
    } else {
        VOLUME_MAX
    }
}

impl VoiceOptions {
    /// The options at start-up, seeded with the configured preferences; the volumes are
    /// clamped.
    pub fn new(input_volume: u32, output_volume: u32, noise_suppression: bool, automatic_gain: bool) -> (r: Self)
        ensures
            r@ == (VoiceOptionsView {
                seq: 0,
                server_seq: 0,
                use_voice: false,
                input_volume: spec_clamp_volume(input_volume),
                output_volume: spec_clamp_volume(output_volume),
                noise_suppression,
                automatic_gain,
                device_generation: 0,
            }),
    {
        VoiceOptions {
            seq: 0,
            server_seq: 0,
            use_voice: false,
            input_volume: clamp_volume(input_volume),
            output_volume: clamp_volume(output_volume),
            noise_suppression,
            automatic_gain,
            device_generation: 0,
        }
    }
}

/// The client-to-server packet sequence number.
pub fn get_seq(opts: &VoiceOptions) -> (r: usize)
    ensures
        r == opts@.seq,
{
    opts.seq
}

/// Sets the client-to-server packet sequence number.
pub fn set_seq(opts: &mut VoiceOptions, value: usize)
    ensures
        final(opts)@ == (VoiceOptionsView { seq: value, ..old(opts)@ }),
{
    proof {
        use_type_invariant(&*opts);
    }
    opts.seq = value;
}

/// The server-to-client packet sequence number.
pub fn get_server_seq(opts: &VoiceOptions) -> (r: usize)
    ensures
        r == opts@.server_seq,
{
    opts.server_seq
}

/// Sets the server-to-client packet sequence number.
pub fn set_server_seq(opts: &mut VoiceOptions, value: usize)
    ensures
        final(opts)@ == (VoiceOptionsView { server_seq: value, ..old(opts)@ }),
{
    proof {
        use_type_invariant(&*opts);
    }
    opts.server_seq = value;
}

/// Whether voice is in use.
pub fn get_use_voice(opts: &VoiceOptions) -> (r: bool)
    ensures
        r == opts@.use_voice,
{
    opts.use_voice
}

/// Flips whether voice is in use and returns the new setting.
pub fn swap_use_voice(opts: &mut VoiceOptions) -> (r: bool)
    ensures
        r == !old(opts)@.use_voice,
        final(opts)@ == (VoiceOptionsView { use_voice: r, ..old(opts)@ }),
{
    proof {
        use_type_invariant(&*opts);
    }
    let previous = opts.use_voice;
    opts.use_voice = !previous;
    !previous
}

/// The microphone volume, in percent.
pub fn get_input_volume(opts: &VoiceOptions) -> (r: u32)
    ensures
        r == opts@.input_volume,
        r <= VOLUME_MAX,
{
    proof {
        use_type_invariant(opts);
    }
    opts.input_volume
}

/// Sets the microphone volume, clamped to [`VOLUME_MAX`].
pub fn set_input_volume(opts: &mut VoiceOptions, percent: u32)
    ensures
        final(opts)@ == (VoiceOptionsView { input_volume: spec_clamp_volume(percent), ..old(opts)@ }),
{
    proof {
        use_type_invariant(&*opts);
    }
    opts.input_volume = clamp_volume(percent);
}

/// The playback volume, in percent.
pub fn get_output_volume(opts: &VoiceOptions) -> (r: u32)
    ensures
        r == opts@.output_volume,
        r <= VOLUME_MAX,
{
    proof {
        use_type_invariant(opts);
    }
    opts.output_volume
}

/// Sets the playback volume, clamped to [`VOLUME_MAX`].
pub fn set_output_volume(opts: &mut VoiceOptions, percent: u32)
    ensures
        final(opts)@ == (VoiceOptionsView { output_volume: spec_clamp_volume(percent), ..old(opts)@ }),
{
    proof {
        use_type_invariant(&*opts);
    }
    opts.output_volume = clamp_volume(percent);
}

/// Whether captured frames are denoised.
pub fn noise_suppression(opts: &VoiceOptions) -> (r: bool)
    ensures
        r == opts@.noise_suppression,
{
    opts.noise_suppression
}

/// Sets whether captured frames are denoised.
pub fn set_noise_suppression(opts: &mut VoiceOptions, value: bool)
    ensures
        final(opts)@ == (VoiceOptionsView { noise_suppression: value, ..old(opts)@ }),
{
    proof {
        use_type_invariant(&*opts);
    }
    opts.noise_suppression = value;
}

/// Whether captured frames are normalized.
pub fn automatic_gain(opts: &VoiceOptions) -> (r: bool)
    ensures
        r == opts@.automatic_gain,
{
    opts.automatic_gain
}

/// Sets whether captured frames are normalized.
pub fn set_automatic_gain(opts: &mut VoiceOptions, value: bool)
    ensures
        final(opts)@ == (VoiceOptionsView { automatic_gain: value, ..old(opts)@ }),
{
    proof {
        use_type_invariant(&*opts);
    }
    opts.automatic_gain = value;
}

/// The device generation.
pub fn device_generation(opts: &VoiceOptions) -> (r: usize)
    ensures
        r == opts@.device_generation,
{
    opts.device_generation
}

/// Records that the configured devices changed: the device generation moves on by one,
/// wrapping around at the end of its range.
pub fn mark_devices_changed(opts: &mut VoiceOptions)
    ensures
        final(opts)@ == (VoiceOptionsView {
            device_generation: (if old(opts)@.device_generation == usize::MAX {
                0
            } else {
                (old(opts)@.device_generation + 1) as usize
            }),
            ..old(opts)@
        }),
{
    proof {
        use_type_invariant(&*opts);
    }
    opts.device_generation = opts.device_generation.wrapping_add(1);
}

/// A volume, once set, stays within the supported range, and a volume already in range is kept
/// as it is.
pub proof fn law_volume_in_range(percent: u32)
    ensures
        spec_clamp_volume(percent) <= VOLUME_MAX,
        percent <= VOLUME_MAX ==> spec_clamp_volume(percent) == percent,
        spec_clamp_volume(spec_clamp_volume(percent)) == spec_clamp_volume(percent),
{
}

} // verus!
