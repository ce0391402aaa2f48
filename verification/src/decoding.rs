//! What the decoders decide before and around decoding: which files may be
//! opened, and the stream format reported for an opened file.

use vstd::prelude::*;

use crate::errors::AudioError;
use crate::format::{codec_name_of, is_format_for, is_known_extension, AudioFormat, AudioFormatInfo, AudioFormatType};
use crate::paths::{extension_of, lowercase_of, path_extension, path_extension_facts};
use crate::text::{all_ascii, ascii_lower, push_str};
use crate::time::Duration;

verus! {

/// The outcome of checking a path's extension: refused as an unsupported
/// format where it has none (reported as `missing`) or where it names no
/// supported format (reported as written); otherwise the format it names.
pub open spec fn extension_check(path: Seq<char>, missing: Seq<char>, r: Result<AudioFormatType, AudioError>) -> bool {
    &&& path_extension_facts(path)
    &&& match extension_of(path) {
        None => r matches Err(e) && e matches AudioError::UnsupportedFormat { format } && format@
            == missing,
        Some(ext) => if is_known_extension(lowercase_of(ext)) {
            r matches Ok(f) && is_format_for(lowercase_of(ext), f)
        } else {
            r matches Err(e) && e matches AudioError::UnsupportedFormat { format } && format@ == ext
        },
    }
}

/// The outcome of checking a present extension `ext` whose lower-case form
/// is `lower`: the format it names where that is a known one, otherwise a
/// refusal as an unsupported format reported as written.
pub open spec fn extension_outcome(ext: Seq<char>, lower: Seq<char>, r: Result<AudioFormatType, AudioError>) -> bool {
    if is_known_extension(lower) {
        r matches Ok(f) && is_format_for(lower, f)
    } else {
        r matches Err(e) && e matches AudioError::UnsupportedFormat { format } && format@ == ext
    }
}

/// Checks an extension, compared without regard to case: a missing one is
/// refused as an unsupported format reported as `missing`, one that names
/// no supported format as an unsupported format reported as written.
pub fn check_extension(ext: Option<&str>, missing: &str) -> (r: Result<AudioFormatType, AudioError>)
    ensures
        match ext {
            None => r matches Err(e) && e matches AudioError::UnsupportedFormat { format } && format@
                == missing@,
            Some(e) => {
                &&& extension_outcome(e@, lowercase_of(e@), r)
                &&& (all_ascii(e@) ==> extension_outcome(e@, ascii_lower(e@), r))
                &&& (all_ascii(e@) ==> lowercase_of(e@) == ascii_lower(e@))
            },
        },
{
    match ext {
        None => Err(AudioError::UnsupportedFormat { format: missing.to_string() }),
        Some(e) => {
            let f = AudioFormatType::from_extension(e);
            proof {
                crate::format::supported_iff_known(lowercase_of(e@), f);
                if all_ascii(e@) {
                    crate::format::supported_iff_known(ascii_lower(e@), f);
                }
            }
            if f.is_supported() {
                Ok(f)
            } else {
                Err(AudioError::UnsupportedFormat { format: e.to_string() })
            }
        },
    }
}

/// Checks a path's extension (see `extension_check`).
fn check_path_extension(path: &str, missing: &str) -> (r: Result<AudioFormatType, AudioError>)
    ensures
        extension_check(path@, missing@, r),
{
    match path_extension(path) {
        None => check_extension(None, missing),
        Some(ext) => check_extension(Some(ext.as_str()), missing),
    }
}

/// Checks, before any file is opened, that a path names a decodable format:
/// a path without extension, or whose extension names no supported format,
/// is refused as an unsupported format (reported as `no extension`, or as
/// the extension as written).
pub fn check_decodable(path: &str) -> (r: Result<AudioFormatType, AudioError>)
    ensures
        extension_check(path@, "no extension"@, r),
{
    proof {
        reveal_strlit("no extension");
    }
    check_path_extension(path, "no extension")
}

/// The message for a track file that does not exist.
pub open spec fn file_not_found(path: Seq<char>) -> Seq<char> {
    "File not found: "@ + path
}

/// Checks a track before the playback thread loads it: a file that does
/// not exist (as `exists` tells) is refused as a streaming error naming
/// it; otherwise its extension is checked, a missing one reported as
/// `no_extension`.
pub fn check_loadable(path: &str, exists: bool) -> (r: Result<AudioFormatType, AudioError>)
    ensures
        !exists ==> (r matches Err(e) && e matches AudioError::Streaming(m) && m@ == file_not_found(path@)),
        exists ==> extension_check(path@, "no_extension"@, r),
{
    if !exists {
        let mut m = String::new();
        push_str(&mut m, "File not found: ");
        push_str(&mut m, path);
        return Err(AudioError::Streaming(m));
    }
    check_path_extension(path, "no_extension")
}

/// Checks a track before the player opens it: as `check_loadable`, with a
/// missing extension reported as `unknown`.
pub fn check_playable(path: &str, exists: bool) -> (r: Result<AudioFormatType, AudioError>)
    ensures
        !exists ==> (r matches Err(e) && e matches AudioError::Streaming(m) && m@ == file_not_found(path@)),
        exists ==> extension_check(path@, "unknown"@, r),
{
    if !exists {
        let mut m = String::new();
        push_str(&mut m, "File not found: ");
        push_str(&mut m, path);
        return Err(AudioError::Streaming(m));
    }
    check_path_extension(path, "unknown")
}

/// The format information reported for an opened stream: the stream's
/// rate and channels where the container gives them (44100 Hz and two
/// channels otherwise), its bit depth and length as given, the format named
/// by the file's extension (`unknown` without one), and that format's codec
/// name.
pub fn stream_format_info(
    path: &str,
    sample_rate: Option<u32>,
    channels: Option<u16>,
    bit_depth: Option<u32>,
    duration: Option<Duration>,
) -> (r: AudioFormatInfo)
    ensures
        r.sample_rate == match sample_rate {
            Some(s) => s,
            None => 44100,
        },
        r.channels == match channels {
            Some(c) => c,
            None => 2,
        },
        r.bit_depth == bit_depth,
        r.duration == duration,
        match extension_of(path@) {
            Some(ext) => is_format_for(lowercase_of(ext), r.format_type),
            None => r.format_type matches AudioFormatType::Unknown(s) && s@ == "unknown"@,
        },
        r.codec_name@ == codec_name_of(r.format_type),
        path_extension_facts(path@),
{
    let format_type = match path_extension(path) {
        Some(ext) => AudioFormatType::from_extension(ext.as_str()),
        None => AudioFormatType::Unknown(String::from_str("unknown")),
    };
    let codec_name = String::from_str(format_type.codec_name());
    AudioFormatInfo {
        sample_rate: match sample_rate {
            Some(s) => s,
            None => 44100,
        },
        channels: match channels {
            Some(c) => c,
            None => 2,
        },
        bit_depth,
        format_type,
        duration,
        codec_name,
    }
}

/// The format of an MP3 stream: its rate, channels and bits per sample
/// where the container gives them (44100 Hz, two channels and 16 bits
/// otherwise), the bits kept to their low 16 bits.
pub fn mp3_stream_format(sample_rate: Option<u32>, channels: Option<u16>, bits: Option<u32>) -> (r:
    AudioFormat)
    ensures
        r.sample_rate == match sample_rate {
            Some(s) => s,
            None => 44100,
        },
        r.channels == match channels {
            Some(c) => c,
            None => 2,
        },
        r.bit_depth == match bits {
            Some(b) => b as u16,
            None => 16,
        },
        r.format_type == AudioFormatType::Mp3,
{
    AudioFormat {
        sample_rate: match sample_rate {
            Some(s) => s,
            None => 44100,
        },
        channels: match channels {
            Some(c) => c,
            None => 2,
        },
        bit_depth: match bits {
            Some(b) => b as u16,
            None => 16,
        },
        format_type: AudioFormatType::Mp3,
    }
}

/// The whole seconds that symphonia's `TimeBase::calc_time` gives for `ts`
/// ticks of `numer / denom` seconds each.
pub uninterp spec fn time_base_seconds(numer: u32, denom: u32, ts: u64) -> u64;

/// The whole seconds of `ts` ticks of a time base (symphonia's
/// `TimeBase::calc_time`, its `seconds` field).
///
/// Trusted: the result is named by `time_base_seconds` and depends on the
/// three numbers alone. How symphonia computes it (in floating point for
/// small products, in integers otherwise) is not restated. A zero numerator
/// or denominator makes the call panic, so both are required to be nonzero.
#[verifier::external_body]
fn whole_seconds(numer: u32, denom: u32, ts: u64) -> (r: u64)
    requires
        numer > 0,
        denom > 0,
    ensures
        r == time_base_seconds(numer, denom, ts),
{
    symphonia::core::units::TimeBase::new(numer, denom).calc_time(ts).seconds
}

/// The samples in `seconds` whole seconds at `rate` samples per second, where
/// that count fits in 64 bits.
pub fn samples_for_seconds(seconds: u64, rate: u32) -> (r: Option<u64>)
    ensures
        r == if seconds * rate <= u64::MAX {
            Some((seconds * rate) as u64)
        } else {
            None::<u64>
        },
{
    seconds.checked_mul(rate as u64)
}

/// The total sample count an MP3 stream reports: where its sample rate, its
/// time base (`numer / denom` seconds per tick, both nonzero) and its frame
/// count are all known, the whole seconds of the frames times the rate;
/// otherwise none. The outer `None` tells that the product does not fit in
/// 64 bits.
pub fn mp3_total_samples(sample_rate: Option<u32>, time_base: Option<(u32, u32)>, n_frames: Option<u64>) -> (r:
    Option<Option<u64>>)
    requires
        time_base matches Some((numer, denom)) ==> numer > 0 && denom > 0,
    ensures
        match (sample_rate, time_base, n_frames) {
            (Some(rate), Some((numer, denom)), Some(frames)) => {
                let total = time_base_seconds(numer, denom, frames) * rate;
                if total <= u64::MAX {
                    r == Some(Some(total as u64))
                } else {
                    r is None
                }
            },
            _ => r == Some(None::<u64>),
        },
{
    match (sample_rate, time_base, n_frames) {
        (Some(rate), Some((numer, denom)), Some(frames)) => {
            let seconds = whole_seconds(numer, denom, frames);
            match samples_for_seconds(seconds, rate) {
                Some(total) => Some(Some(total)),
                None => None,
            }
        },
        _ => Some(None),
    }
}

} // verus!
