//! File path queries and case folding that come from std.

use vstd::prelude::*;

use crate::text::{all_ascii, ascii_lower, ascii_upper};

verus! {

/// What std's `Path::extension` gives for a path, taken as text: the part of
/// the final component after its last `.`, where there is one. How a path
/// splits into components depends on the platform (`\` and drive prefixes
/// count only on Windows); `simple_path` picks out paths read alike
/// everywhere.
pub uninterp spec fn extension_of(path: Seq<char>) -> Option<Seq<char>>;

/// What std's `Path::file_stem` gives for a path, taken as text: the final
/// component without its extension, where there is a final component. As
/// for `extension_of`, the split into components depends on the platform.
pub uninterp spec fn file_stem_of(path: Seq<char>) -> Option<Seq<char>>;

/// The position of the last occurrence of `c` in `s`, or -1.
pub open spec fn last_index_of(s: Seq<char>, c: char) -> int
    decreases s.len(),
{
    if s.len() == 0 {
        -1
    } else if s.last() == c {
        s.len() - 1
    } else {
        last_index_of(s.drop_last(), c)
    }
}

/// The text after the last `/` (all of it where there is none).
pub open spec fn final_part(s: Seq<char>) -> Seq<char> {
    s.subrange(last_index_of(s, '/') + 1, s.len() as int)
}

/// A relative path that every platform splits alike, whose final part is a
/// file name: it holds no `\` or `:`, does not start with `/`, and its
/// text after the last `/` is neither empty, `.` nor `..`.
pub open spec fn simple_path(s: Seq<char>) -> bool {
    let name = final_part(s);
    &&& forall|i: int| 0 <= i < s.len() ==> s[i] != '\\' && s[i] != ':'
    &&& (s.len() > 0 ==> s[0] != '/')
    &&& name.len() > 0
    &&& name != seq!['.']
    &&& name != seq!['.', '.']
}

/// What std gives for the extension of a path, as far as it is stated: for
/// a `simple_path`, the extension of its file name; for an ASCII
/// extension, lower-casing is ASCII lower-casing.
pub open spec fn path_extension_facts(path: Seq<char>) -> bool {
    &&& simple_path(path) ==> extension_of(path) == name_extension(final_part(path))
    &&& match extension_of(path) {
        Some(e) => all_ascii(e) ==> lowercase_of(e) == ascii_lower(e),
        None => true,
    }
}

/// The extension of a file name: the text after its last `.`, where that
/// `.` is not the name's first character.
pub open spec fn name_extension(name: Seq<char>) -> Option<Seq<char>> {
    let d = last_index_of(name, '.');
    if d > 0 {
        Some(name.subrange(d + 1, name.len() as int))
    } else {
        None
    }
}

/// The stem of a file name: the text before its last `.`, where that `.` is
/// not the name's first character; the whole name otherwise.
pub open spec fn name_stem(name: Seq<char>) -> Seq<char> {
    let d = last_index_of(name, '.');
    if d > 0 {
        name.subrange(0, d)
    } else {
        name
    }
}

/// What std's `str::to_lowercase` gives for a text.
pub uninterp spec fn lowercase_of(s: Seq<char>) -> Seq<char>;

/// What std's `str::to_uppercase` gives for a text.
pub uninterp spec fn uppercase_of(s: Seq<char>) -> Seq<char>;

/// The extension of a path (std's `Path::extension`, read back as text).
///
/// The result is named by `extension_of` and is a function of the path
/// alone. For a `simple_path` it is stated as std documents it: the text
/// after the final `.` of the file name, none where the name has no `.` or
/// only a leading one. How std splits other paths into components is not
/// restated here.
#[verifier::external_body]
pub(crate) fn path_extension(path: &str) -> (r: Option<String>)
    ensures
        match r {
            Some(e) => extension_of(path@) == Some(e@),
            None => extension_of(path@) is None,
        },
        simple_path(path@) ==> match r {
            Some(e) => name_extension(final_part(path@)) == Some(e@),
            None => name_extension(final_part(path@)) is None,
        },
{
    match std::path::Path::new(path).extension() {
        Some(e) => match e.to_str() {
            Some(t) => Some(t.to_string()),
            None => None,
        },
        None => None,
    }
}

/// The file stem of a path (std's `Path::file_stem`, read back as text).
///
/// The result is named by `file_stem_of` and is a function of the path
/// alone. For a `simple_path` it is stated as std documents it: the file
/// name without its extension (see `name_stem`). How std splits other paths
/// into components is not restated here.
#[verifier::external_body]
pub(crate) fn path_file_stem(path: &str) -> (r: Option<String>)
    ensures
        match r {
            Some(e) => file_stem_of(path@) == Some(e@),
            None => file_stem_of(path@) is None,
        },
        match r {
            Some(e) => simple_path(path@) ==> e@ == name_stem(final_part(path@)),
            None => !simple_path(path@),
        },
{
    match std::path::Path::new(path).file_stem() {
        Some(e) => match e.to_str() {
            Some(t) => Some(t.to_string()),
            None => None,
        },
        None => None,
    }
}

/// The Unicode lower-case form of a text (std's `str::to_lowercase`).
///
/// The result is named by `lowercase_of`. The one fact stated of it is that
/// on ASCII text it maps `A`..`Z` to `a`..`z` and keeps every other
/// character; its behaviour on other characters follows Unicode tables and is
/// not restated.
#[verifier::external_body]
pub(crate) fn to_lowercase(s: &str) -> (r: String)
    ensures
        r@ == lowercase_of(s@),
        all_ascii(s@) ==> r@ == ascii_lower(s@),
{
    s.to_lowercase()
}

/// The Unicode upper-case form of a text (std's `str::to_uppercase`).
///
/// The result is named by `uppercase_of`. The one fact stated of it is that
/// on ASCII text it maps `a`..`z` to `A`..`Z` and keeps every other
/// character; its behaviour on other characters follows Unicode tables and is
/// not restated.
#[verifier::external_body]
pub(crate) fn to_uppercase(s: &str) -> (r: String)
    ensures
        r@ == uppercase_of(s@),
        all_ascii(s@) ==> r@ == ascii_upper(s@),
{
    s.to_uppercase()
}

/// Whether std's order on paths (`Path`'s `Ord`, which compares paths
/// component by component) puts path `a` strictly before path `b`.
pub uninterp spec fn path_precedes(a: Seq<char>, b: Seq<char>) -> bool;

/// Whether path `a` comes strictly before path `b` in std's order on paths
/// (the `<` of `Path`).
///
/// The result is named by `path_precedes`. The one fact stated of it is
/// that the order is asymmetric, as the total order that std's `Ord`
/// documents for `Path` is: where `a` comes before `b`, `b` does not come
/// before `a`. How std compares components is not restated here.
#[verifier::external_body]
pub(crate) fn path_before(a: &str, b: &str) -> (r: bool)
    ensures
        r == path_precedes(a@, b@),
        r ==> !path_precedes(b@, a@),
{
    std::path::Path::new(a) < std::path::Path::new(b)
}

} // verus!
