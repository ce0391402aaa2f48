//! Audio file detection and human-readable rendering of durations and sizes.

use vstd::prelude::*;

use crate::format::{is_format_for, is_known_extension, AudioFormatType};
use crate::paths::{extension_of, lowercase_of, path_extension, path_extension_facts};
use crate::text::{
    ascii_lower, decimal, decimal_two, digit, digit_char, push_char, push_decimal,
    push_decimal_two, push_str, str_eq, to_ascii_lowercase,
};
use crate::time::Duration;

verus! {

/// Accepted audio file extensions for folder scanning.
pub const AUDIO_EXTENSIONS: [&'static str; 6] = ["mp3", "flac", "wav", "ogg", "m4a", "aac"];

/// Whether a lower-case extension is one of those accepted when scanning a
/// folder: `mp3`, `flac`, `wav`, `ogg`, `m4a` and `aac`.
pub open spec fn is_scanned_extension(lower: Seq<char>) -> bool {
    ||| lower == seq!['m', 'p', '3']
    ||| lower == seq!['f', 'l', 'a', 'c']
    ||| lower == seq!['w', 'a', 'v']
    ||| lower == seq!['o', 'g', 'g']
    ||| lower == seq!['m', '4', 'a']
    ||| lower == seq!['a', 'a', 'c']
}

/// Whether an extension, compared by its ASCII lower-case form, is one of
/// `AUDIO_EXTENSIONS`.
pub fn is_scanned_audio_extension(ext: &str) -> (r: bool)
    ensures
        r == is_scanned_extension(ascii_lower(ext@)),
{
    let lower = to_ascii_lowercase(ext);
    let l = lower.as_str();
    proof {
        reveal_strlit("mp3");
        reveal_strlit("flac");
        reveal_strlit("wav");
        reveal_strlit("ogg");
        reveal_strlit("m4a");
        reveal_strlit("aac");
        assert("mp3"@ =~= seq!['m', 'p', '3']);
        assert("flac"@ =~= seq!['f', 'l', 'a', 'c']);
        assert("wav"@ =~= seq!['w', 'a', 'v']);
        assert("ogg"@ =~= seq!['o', 'g', 'g']);
        assert("m4a"@ =~= seq!['m', '4', 'a']);
        assert("aac"@ =~= seq!['a', 'a', 'c']);
    }
    str_eq(l, "mp3") || str_eq(l, "flac") || str_eq(l, "wav") || str_eq(l, "ogg") || str_eq(
        l,
        "m4a",
    ) || str_eq(l, "aac")
}

/// Whether a path found while scanning a folder is kept: it has an extension
/// that `is_scanned_audio_extension` accepts.
pub fn is_scanned_audio_path(path: &str) -> (r: bool)
    ensures
        r == match extension_of(path@) {
            Some(e) => is_scanned_extension(ascii_lower(e)),
            None => false,
        },
{
    match path_extension(path) {
        Some(e) => is_scanned_audio_extension(e.as_str()),
        None => false,
    }
}

/// Whether a file is an audio file, judged by its extension.
pub fn is_audio_file(path: &str) -> (r: bool)
    ensures
        r == match extension_of(path@) {
            Some(e) => is_known_extension(lowercase_of(e)),
            None => false,
        },
        path_extension_facts(path@),
{
    match path_extension(path) {
        Some(e) => {
            let f = AudioFormatType::from_extension(e.as_str());
            proof {
                crate::format::supported_iff_known(lowercase_of(e@), f);
            }
            f.is_supported()
        },
        None => false,
    }
}

/// The audio format of a file, judged by its extension; `None` where the
/// extension is missing or names no supported format.
pub fn get_format_from_path(path: &str) -> (r: Option<AudioFormatType>)
    ensures
        match extension_of(path@) {
            Some(e) => match r {
                Some(f) => is_known_extension(lowercase_of(e)) && is_format_for(lowercase_of(e), f),
                None => !is_known_extension(lowercase_of(e)),
            },
            None => r is None,
        },
        path_extension_facts(path@),
{
    match path_extension(path) {
        Some(e) => {
            let f = AudioFormatType::from_extension(e.as_str());
            proof {
                crate::format::supported_iff_known(lowercase_of(e@), f);
            }
            if f.is_supported() {
                Some(f)
            } else {
                None
            }
        },
        None => None,
    }
}

/// `MM:SS` for a number of seconds; minutes take as many digits as they need.
pub open spec fn minutes_seconds(total: nat) -> Seq<char> {
    decimal_two(total / 60) + seq![':'] + decimal_two(total % 60)
}

/// `HH:MM:SS` for a number of seconds, or `MM:SS` under one hour.
pub open spec fn hours_minutes_seconds(total: nat) -> Seq<char> {
    if total / 3600 > 0 {
        decimal_two(total / 3600) + seq![':'] + decimal_two((total % 3600) / 60) + seq![':']
            + decimal_two(total % 60)
    } else {
        decimal_two((total % 3600) / 60) + seq![':'] + decimal_two(total % 60)
    }
}

/// The whole seconds of a duration as `MM:SS`.
pub fn format_duration(duration: Duration) -> (s: String)
    ensures
        s@ == minutes_seconds(duration.total_nanos() / 1_000_000_000),
{
    let total = duration.as_secs();
    let mut s = String::new();
    push_decimal_two(&mut s, total / 60);
    push_char(&mut s, ':');
    push_decimal_two(&mut s, total % 60);
    s
}

/// The whole seconds of a duration as `HH:MM:SS`, or `MM:SS` under one hour.
pub fn format_duration_with_hours(duration: Duration) -> (s: String)
    ensures
        s@ == hours_minutes_seconds(duration.total_nanos() / 1_000_000_000),
{
    let total = duration.as_secs();
    let hours = total / 3600;
    let minutes = (total % 3600) / 60;
    let seconds = total % 60;
    let mut s = String::new();
    if hours > 0 {
        push_decimal_two(&mut s, hours);
        push_char(&mut s, ':');
    }
    push_decimal_two(&mut s, minutes);
    push_char(&mut s, ':');
    push_decimal_two(&mut s, seconds);
    s
}

/// `a / d` rounded to the nearest integer, ties to the even one.
pub open spec fn div_round_even(a: nat, d: nat) -> nat {
    let q = a / d;
    let r = a % d;
    if 2 * r > d || (2 * r == d && q % 2 == 1) {
        q + 1
    } else {
        q
    }
}

/// 2^53, above which not every integer is a double.
pub open spec fn two_pow_53() -> nat {
    9_007_199_254_740_992
}

/// The spacing of doubles around `n` (for `n` below 2^64): the smallest
/// power of two `g` with `n / g` below 2^53.
pub open spec fn double_spacing(n: nat) -> nat {
    if n < two_pow_53() {
        1
    } else if n < 2 * two_pow_53() {
        2
    } else if n < 4 * two_pow_53() {
        4
    } else if n < 8 * two_pow_53() {
        8
    } else if n < 16 * two_pow_53() {
        16
    } else if n < 32 * two_pow_53() {
        32
    } else if n < 64 * two_pow_53() {
        64
    } else if n < 128 * two_pow_53() {
        128
    } else if n < 256 * two_pow_53() {
        256
    } else if n < 512 * two_pow_53() {
        512
    } else if n < 1024 * two_pow_53() {
        1024
    } else {
        2048
    }
}

/// The double nearest to `n` (ties to even), as an integer: the value that
/// `n as f64` holds.
pub open spec fn nearest_double(n: nat) -> nat {
    div_round_even(n, double_spacing(n)) * double_spacing(n)
}

/// The unit index for a size: 0 for B, 1 for KB, 2 for MB, 3 for GB; the
/// largest unit that the size reaches, up to GB.
pub open spec fn size_unit(f: nat) -> nat {
    if f >= 1_073_741_824 {
        3
    } else if f >= 1_048_576 {
        2
    } else if f >= 1024 {
        1
    } else {
        0
    }
}

/// The number of bytes in unit `u`.
pub open spec fn unit_bytes(u: nat) -> nat {
    if u == 3 {
        1_073_741_824
    } else if u == 2 {
        1_048_576
    } else if u == 1 {
        1024
    } else {
        1
    }
}

/// The name of unit `u`.
pub open spec fn unit_name(u: nat) -> Seq<char> {
    if u == 3 {
        seq!['G', 'B']
    } else if u == 2 {
        seq!['M', 'B']
    } else if u == 1 {
        seq!['K', 'B']
    } else {
        seq!['B']
    }
}

/// A file size for display: the size taken as a double, in the largest unit
/// it reaches (up to GB); whole bytes below 1 KB, otherwise one decimal place,
/// rounded to the nearest tenth with ties to the even tenth.
pub open spec fn file_size_text(size: nat) -> Seq<char> {
    let f = nearest_double(size);
    let u = size_unit(f);
    if u == 0 {
        decimal(f) + seq![' '] + unit_name(0)
    } else {
        let t = div_round_even(f * 10, unit_bytes(u));
        decimal(t / 10) + seq!['.', digit_char(t % 10), ' '] + unit_name(u)
    }
}

/// `a / d` rounded to the nearest integer, ties to the even one.
fn div_round_even_u128(a: u128, d: u128) -> (r: u128)
    requires
        d > 0,
        d < u128::MAX / 2,
        a < u128::MAX / 2,
    ensures
        r == div_round_even(a as nat, d as nat),
{
    let q = a / d;
    let rem = a % d;
    if 2 * rem > d || (2 * rem == d && q % 2 == 1) {
        q + 1
    } else {
        q
    }
}

/// The spacing of doubles around `n`.
fn spacing_of(n: u64) -> (g: u128)
    ensures
        g == double_spacing(n as nat),
        1 <= g <= 2048,
{
    let n = n as u128;
    let p: u128 = 9_007_199_254_740_992;
    if n < p {
        1
    } else if n < 2 * p {
        2
    } else if n < 4 * p {
        4
    } else if n < 8 * p {
        8
    } else if n < 16 * p {
        16
    } else if n < 32 * p {
        32
    } else if n < 64 * p {
        64
    } else if n < 128 * p {
        128
    } else if n < 256 * p {
        256
    } else if n < 512 * p {
        512
    } else if n < 1024 * p {
        1024
    } else {
        2048
    }
}

/// Renders a file size for display, such as `512 B` or `1.5 KB`.
pub fn format_file_size(size: u64) -> (s: String)
    ensures
        s@ == file_size_text(size as nat),
{
    let g = spacing_of(size);
    let q = div_round_even_u128(size as u128, g);
    let ghost sz: int = size as int;
    let ghost gi: int = g as int;
    assert(q <= sz / gi + 1);
    assert(q * gi <= sz + gi) by (nonlinear_arith)
        requires
            q <= sz / gi + 1,
            gi >= 1,
            sz >= 0,
    ;
    let f: u128 = q * g;
    let mut s = String::new();
    if f < 1024 {
        push_decimal(&mut s, f as u64);
        push_str(&mut s, " B");
        proof {
            reveal_strlit(" B");
            assert(" B"@ =~= seq![' '] + unit_name(0));
        }
    } else {
        let (unit, name) = if f >= 1_073_741_824 {
            (1_073_741_824u128, "GB")
        } else if f >= 1_048_576 {
            (1_048_576u128, "MB")
        } else {
            (1024u128, "KB")
        };
        proof {
            reveal_strlit("GB");
            reveal_strlit("MB");
            reveal_strlit("KB");
            assert("GB"@ =~= unit_name(3));
            assert("MB"@ =~= unit_name(2));
            assert("KB"@ =~= unit_name(1));
        }
        let t = div_round_even_u128(f * 10, unit);
        let ghost f10: int = f * 10;
        let ghost un: int = unit as int;
        assert(t <= f10 + 1) by (nonlinear_arith)
            requires
                t <= f10 / un + 1,
                un >= 1,
                f10 >= 0,
        ;
        push_decimal(&mut s, (t / 10) as u64);
        push_char(&mut s, '.');
        push_char(&mut s, digit((t % 10) as u64));
        push_char(&mut s, ' ');
        push_str(&mut s, name);
    }
    s
}

/// A folder scan accepts exactly the extensions listed in
/// `AUDIO_EXTENSIONS`: each listed extension is accepted, and every accepted
/// (lower-case) extension is one of those listed.
pub proof fn scanned_extensions_are_listed(e: Seq<char>)
    ensures
        forall|i: int| 0 <= i < 6 ==> is_scanned_extension(#[trigger] AUDIO_EXTENSIONS@[i]@),
        is_scanned_extension(e) ==> exists|i: int| 0 <= i < 6 && e == #[trigger] AUDIO_EXTENSIONS@[i]@,
{
    reveal_strlit("mp3");
    reveal_strlit("flac");
    reveal_strlit("wav");
    reveal_strlit("ogg");
    reveal_strlit("m4a");
    reveal_strlit("aac");
    assert("mp3"@ =~= seq!['m', 'p', '3']);
    assert("flac"@ =~= seq!['f', 'l', 'a', 'c']);
    assert("wav"@ =~= seq!['w', 'a', 'v']);
    assert("ogg"@ =~= seq!['o', 'g', 'g']);
    assert("m4a"@ =~= seq!['m', '4', 'a']);
    assert("aac"@ =~= seq!['a', 'a', 'c']);
    assert(AUDIO_EXTENSIONS@[0]@ == "mp3"@);
    assert(AUDIO_EXTENSIONS@[1]@ == "flac"@);
    assert(AUDIO_EXTENSIONS@[2]@ == "wav"@);
    assert(AUDIO_EXTENSIONS@[3]@ == "ogg"@);
    assert(AUDIO_EXTENSIONS@[4]@ == "m4a"@);
    assert(AUDIO_EXTENSIONS@[5]@ == "aac"@);
}

} // verus!
