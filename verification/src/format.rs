//! Audio format types and their detection from file extensions.

use vstd::prelude::*;

use crate::paths::{lowercase_of, to_lowercase};
use crate::text::{all_ascii, ascii_lower, ascii_upper, str_eq};

verus! {

/// Audio format information.
#[derive(Debug, Clone, PartialEq, Eq)]
pub struct AudioFormat {
    /// Sample rate in Hz.
    pub sample_rate: u32,
    /// Number of channels (1 = mono, 2 = stereo).
    pub channels: u16,
    /// Bit depth (16, 24, etc.).
    pub bit_depth: u16,
    /// Format type.
    pub format_type: AudioFormatType,
}

/// Detailed information about an audio stream returned by a decoder.
#[derive(Debug, Clone)]
pub struct AudioFormatInfo {
    /// Sample rate in Hz (e.g. 44100, 48000, 192000).
    pub sample_rate: u32,
    /// Number of channels.
    pub channels: u16,
    /// Bit depth per sample, if reported by the container.
    pub bit_depth: Option<u32>,
    /// Container/format type inferred from the file extension.
    pub format_type: AudioFormatType,
    /// Total duration, if known before full decode.
    pub duration: Option<crate::time::Duration>,
    /// Human-readable codec name (e.g. "FLAC", "MP3").
    pub codec_name: String,
}

/// Supported audio format types.
#[derive(Debug, Clone, PartialEq, Eq)]
pub enum AudioFormatType {
    Mp3,
    Flac,
    Wav,
    Ogg,
    Aac,
    Opus,
    Unknown(String),
}

/// The format that a lower-case extension names: `mp3`, `flac`, `wav`,
/// `ogg`/`oga`, `aac`/`m4a` and `opus` are known; any other extension gives
/// `Unknown` holding that extension.
pub open spec fn is_format_for(lower: Seq<char>, f: AudioFormatType) -> bool {
    if lower == seq!['m', 'p', '3'] {
        f == AudioFormatType::Mp3
    } else if lower == seq!['f', 'l', 'a', 'c'] {
        f == AudioFormatType::Flac
    } else if lower == seq!['w', 'a', 'v'] {
        f == AudioFormatType::Wav
    } else if lower == seq!['o', 'g', 'g'] || lower == seq!['o', 'g', 'a'] {
        f == AudioFormatType::Ogg
    } else if lower == seq!['a', 'a', 'c'] || lower == seq!['m', '4', 'a'] {
        f == AudioFormatType::Aac
    } else if lower == seq!['o', 'p', 'u', 's'] {
        f == AudioFormatType::Opus
    } else {
        f matches AudioFormatType::Unknown(s) && s@ == lower
    }
}

/// Whether a lower-case extension names a playable format.
pub open spec fn is_known_extension(lower: Seq<char>) -> bool {
    ||| lower == seq!['m', 'p', '3']
    ||| lower == seq!['f', 'l', 'a', 'c']
    ||| lower == seq!['w', 'a', 'v']
    ||| lower == seq!['o', 'g', 'g']
    ||| lower == seq!['o', 'g', 'a']
    ||| lower == seq!['a', 'a', 'c']
    ||| lower == seq!['m', '4', 'a']
    ||| lower == seq!['o', 'p', 'u', 's']
}

/// The codec name shown for a format.
pub open spec fn codec_name_of(f: AudioFormatType) -> Seq<char> {
    match f {
        AudioFormatType::Mp3 => seq!['M', 'P', '3'],
        AudioFormatType::Flac => seq!['F', 'L', 'A', 'C'],
        AudioFormatType::Wav => seq!['P', 'C', 'M'],
        AudioFormatType::Ogg => seq!['V', 'o', 'r', 'b', 'i', 's'],
        AudioFormatType::Aac => seq!['A', 'A', 'C'],
        AudioFormatType::Opus => seq!['O', 'p', 'u', 's'],
        AudioFormatType::Unknown(_) => seq!['U', 'n', 'k', 'n', 'o', 'w', 'n'],
    }
}

/// The lower-case name of a format.
pub open spec fn name_of(f: AudioFormatType) -> Seq<char> {
    match f {
        AudioFormatType::Mp3 => seq!['m', 'p', '3'],
        AudioFormatType::Flac => seq!['f', 'l', 'a', 'c'],
        AudioFormatType::Wav => seq!['w', 'a', 'v'],
        AudioFormatType::Ogg => seq!['o', 'g', 'g'],
        AudioFormatType::Aac => seq!['a', 'a', 'c'],
        AudioFormatType::Opus => seq!['o', 'p', 'u', 's'],
        AudioFormatType::Unknown(s) => s@,
    }
}

impl AudioFormatType {
    /// The format named by a file extension, compared without regard to case.
    pub fn from_extension(ext: &str) -> (r: AudioFormatType)
        ensures
            is_format_for(lowercase_of(ext@), r),
            all_ascii(ext@) ==> is_format_for(ascii_lower(ext@), r),
            all_ascii(ext@) ==> lowercase_of(ext@) == ascii_lower(ext@),
    {
        let lower = to_lowercase(ext);
        let l = lower.as_str();
        proof {
            reveal_strlit("mp3");
            reveal_strlit("flac");
            reveal_strlit("wav");
            reveal_strlit("ogg");
            reveal_strlit("oga");
            reveal_strlit("aac");
            reveal_strlit("m4a");
            reveal_strlit("opus");
            assert("mp3"@ =~= seq!['m', 'p', '3']);
            assert("flac"@ =~= seq!['f', 'l', 'a', 'c']);
            assert("wav"@ =~= seq!['w', 'a', 'v']);
            assert("ogg"@ =~= seq!['o', 'g', 'g']);
            assert("oga"@ =~= seq!['o', 'g', 'a']);
            assert("aac"@ =~= seq!['a', 'a', 'c']);
            assert("m4a"@ =~= seq!['m', '4', 'a']);
            assert("opus"@ =~= seq!['o', 'p', 'u', 's']);
        }
        if str_eq(l, "mp3") {
            AudioFormatType::Mp3
        } else if str_eq(l, "flac") {
            AudioFormatType::Flac
        } else if str_eq(l, "wav") {
            AudioFormatType::Wav
        } else if str_eq(l, "ogg") || str_eq(l, "oga") {
            AudioFormatType::Ogg
        } else if str_eq(l, "aac") || str_eq(l, "m4a") {
            AudioFormatType::Aac
        } else if str_eq(l, "opus") {
            AudioFormatType::Opus
        } else {
            AudioFormatType::Unknown(lower)
        }
    }

    /// Whether the format is supported for playback: every format but `Unknown`.
    pub fn is_supported(&self) -> (r: bool)
        ensures
            r == !(self is Unknown),
    {
        match self {
            AudioFormatType::Unknown(_) => false,
            _ => true,
        }
    }

    /// A human-readable codec name for display.
    pub fn codec_name(&self) -> (r: &str)
        ensures
            r@ == codec_name_of(*self),
    {
        proof {
            reveal_strlit("MP3");
            reveal_strlit("FLAC");
            reveal_strlit("PCM");
            reveal_strlit("Vorbis");
            reveal_strlit("AAC");
            reveal_strlit("Opus");
            reveal_strlit("Unknown");
            assert("MP3"@ =~= seq!['M', 'P', '3']);
            assert("FLAC"@ =~= seq!['F', 'L', 'A', 'C']);
            assert("PCM"@ =~= seq!['P', 'C', 'M']);
            assert("Vorbis"@ =~= seq!['V', 'o', 'r', 'b', 'i', 's']);
            assert("AAC"@ =~= seq!['A', 'A', 'C']);
            assert("Opus"@ =~= seq!['O', 'p', 'u', 's']);
            assert("Unknown"@ =~= seq!['U', 'n', 'k', 'n', 'o', 'w', 'n']);
        }
        match self {
            AudioFormatType::Mp3 => "MP3",
            AudioFormatType::Flac => "FLAC",
            AudioFormatType::Wav => "PCM",
            AudioFormatType::Ogg => "Vorbis",
            AudioFormatType::Aac => "AAC",
            AudioFormatType::Opus => "Opus",
            AudioFormatType::Unknown(_) => "Unknown",
        }
    }

    /// The format as a lower-case string; an unknown format gives its extension.
    pub fn as_str(&self) -> (r: &str)
        ensures
            r@ == name_of(*self),
    {
        proof {
            reveal_strlit("mp3");
            reveal_strlit("flac");
            reveal_strlit("wav");
            reveal_strlit("ogg");
            reveal_strlit("aac");
            reveal_strlit("opus");
            assert("mp3"@ =~= seq!['m', 'p', '3']);
            assert("flac"@ =~= seq!['f', 'l', 'a', 'c']);
            assert("wav"@ =~= seq!['w', 'a', 'v']);
            assert("ogg"@ =~= seq!['o', 'g', 'g']);
            assert("aac"@ =~= seq!['a', 'a', 'c']);
            assert("opus"@ =~= seq!['o', 'p', 'u', 's']);
        }
        match self {
            AudioFormatType::Mp3 => "mp3",
            AudioFormatType::Flac => "flac",
            AudioFormatType::Wav => "wav",
            AudioFormatType::Ogg => "ogg",
            AudioFormatType::Aac => "aac",
            AudioFormatType::Opus => "opus",
            AudioFormatType::Unknown(s) => s.as_str(),
        }
    }
}

/// An extension gives a supported format exactly when it is one of the known
/// extensions, in any case.
pub proof fn supported_iff_known(lower: Seq<char>, f: AudioFormatType)
    requires
        is_format_for(lower, f),
    ensures
        !(f is Unknown) <==> is_known_extension(lower),
{
    if !is_known_extension(lower) {
        assert(f is Unknown);
    }
}

/// Two formats are the same: the same kind, with the same name.
pub open spec fn same_format(a: AudioFormatType, b: AudioFormatType) -> bool {
    name_of(a) == name_of(b) && (a is Unknown <==> b is Unknown)
}

/// Upper- and lower-casing ASCII text keeps it ASCII, and both forms lower
/// to the same text as `e` itself does.
pub proof fn ascii_case_forms(e: Seq<char>)
    requires
        all_ascii(e),
    ensures
        all_ascii(ascii_upper(e)),
        all_ascii(ascii_lower(e)),
        ascii_lower(ascii_upper(e)) == ascii_lower(e),
        ascii_lower(ascii_lower(e)) == ascii_lower(e),
{
    assert forall|i: int| 0 <= i < e.len() implies (ascii_upper(e)[i] as u32) < 128 && (ascii_lower(
        e,
    )[i] as u32) < 128 by {
        assert((e[i] as u32) < 128);
    }
    assert(ascii_lower(ascii_upper(e)) =~= ascii_lower(e));
    assert(ascii_lower(ascii_lower(e)) =~= ascii_lower(e));
}

/// Detection ignores case: ASCII extensions that agree but for case give the
/// same format, so an extension, its upper-case form and its lower-case form
/// are all detected alike.
pub proof fn detection_ignores_case(e1: Seq<char>, e2: Seq<char>, f1: AudioFormatType, f2: AudioFormatType)
    requires
        all_ascii(e1),
        all_ascii(e2),
        ascii_lower(e1) == ascii_lower(e2),
        is_format_for(ascii_lower(e1), f1),
        is_format_for(ascii_lower(e2), f2),
    ensures
        same_format(f1, f2),
{
}

/// The name of a format reads back as that format: detecting the format of
/// `as_str` gives the same format, and the name is in lower case. For an
/// unknown format this holds where its text is already in lower case and is
/// not a known extension.
pub proof fn as_str_round_trips(f: AudioFormatType, g: AudioFormatType)
    requires
        f is Unknown ==> lowercase_of(name_of(f)) == name_of(f) && !is_known_extension(name_of(f)),
        is_format_for(lowercase_of(name_of(f)), g),
        all_ascii(name_of(f)) ==> is_format_for(ascii_lower(name_of(f)), g),
    ensures
        same_format(g, f),
        !(f is Unknown) ==> all_ascii(name_of(f)) && ascii_lower(name_of(f)) == name_of(f),
{
    if !(f is Unknown) {
        let n = name_of(f);
        assert(all_ascii(n));
        assert(ascii_lower(n) =~= n);
    }
}

/// The name of a format detected from an extension is that extension in lower
/// case, except that `oga` and `m4a` name the `ogg` and `aac` formats.
pub proof fn name_round_trips(lower: Seq<char>, f: AudioFormatType)
    requires
        is_format_for(lower, f),
        lower != seq!['o', 'g', 'a'],
        lower != seq!['m', '4', 'a'],
    ensures
        name_of(f) == lower,
{
}

} // verus!
