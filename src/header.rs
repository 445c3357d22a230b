use vstd::prelude::*;

use crate::config::RenderConfig;

verus! {

#[verifier::external_type_specification]
pub struct ExHeader(wav::Header);

/// Audio format tag of integer PCM in a wave file.
pub const PCM_FORMAT: u16 = 1;

/// Channel count of the rendered audio: mono.
pub const MONO: u16 = 1;

/// Relies on `wav::Header::new`: it stores the four arguments as given and
/// derives `bytes_per_sample = (bits_per_sample >> 3) * channel_count` and
/// `bytes_per_second = bytes_per_sample * sampling_rate`. Both products are
/// computed unchecked, so `requires` keeps them in range.
#[verifier::external_body]
#[allow(deprecated)]
fn header_new(audio_format: u16, channel_count: u16, sampling_rate: u32, bits_per_sample: u16) -> (r: wav::Header)
    requires
        (bits_per_sample / 8) * channel_count <= u16::MAX,
        (bits_per_sample / 8) * channel_count * sampling_rate <= u32::MAX,
    ensures
        r.audio_format == audio_format,
        r.channel_count == channel_count,
        r.sampling_rate == sampling_rate,
        r.bits_per_sample == bits_per_sample,
        r.bytes_per_sample == (bits_per_sample / 8) * channel_count,
        r.bytes_per_second == (bits_per_sample / 8) * channel_count * sampling_rate,
{
    wav::Header::new(audio_format, channel_count, sampling_rate, bits_per_sample)
}

/// Header of a mono 16-bit integer PCM wave file for `config`. `None` where
/// the bit depth is not 16, or where the byte rate `2 * sample_rate` does not
/// fit in 32 bits.
#[allow(deprecated)]
pub fn pcm_header(config: &RenderConfig) -> (r: Option<wav::Header>)
    ensures
        r is Some <==> (config.bit_depth == 16 && 2 * config.sample_rate <= u32::MAX),
        r matches Some(h) ==> h.audio_format == PCM_FORMAT && h.channel_count == MONO
            && h.sampling_rate == config.sample_rate && h.bits_per_sample == 16
            && h.bytes_per_sample == 2 && h.bytes_per_second == 2 * config.sample_rate,
{
    if config.bit_depth != 16 || config.sample_rate > u32::MAX / 2 {
        None
    } else {
        Some(header_new(PCM_FORMAT, MONO, config.sample_rate, 16))
    }
}

} // verus!
