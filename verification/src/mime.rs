//! The output encodings the server offers and the case-insensitive matching
//! of the `mime` query parameter against them.

use vstd::prelude::*;
use vstd::string::StrSliceExecFns;
use vstd::string::StringExecFns;

verus! {

/// One of the supported output encodings.
#[derive(Clone, Copy, Debug, PartialEq, Eq, Structural)]
pub enum ImageFormat {
    Png,
    Jpeg,
    Gif,
    Ico,
}

/// Whether `a` reads as the upper-case ASCII letter `b` when case is
/// ignored: either the letter itself or its lower-case form.
pub open spec fn upper_eq_char(a: char, b: char) -> bool {
    a == b || ('A' <= b && b <= 'Z' && a as int == b as int + 32)
}

/// Whether `s` equals the upper-case ASCII word `t` up to ASCII case.
pub open spec fn eq_ignore_case(s: Seq<char>, t: Seq<char>) -> bool {
    s.len() == t.len() && (forall|i: int| 0 <= i < s.len() ==> upper_eq_char(s[i], #[trigger] t[i]))
}

/// The encoding a `mime` value selects, if any: PNG, JPEG (also spelled
/// JPG), GIF or ICO, matched without regard to ASCII case.
pub open spec fn format_of_mime(m: Seq<char>) -> Option<ImageFormat> {
    if eq_ignore_case(m, "PNG"@) {
        Some(ImageFormat::Png)
    } else if eq_ignore_case(m, "JPEG"@) || eq_ignore_case(m, "JPG"@) {
        Some(ImageFormat::Jpeg)
    } else if eq_ignore_case(m, "GIF"@) {
        Some(ImageFormat::Gif)
    } else if eq_ignore_case(m, "ICO"@) {
        Some(ImageFormat::Ico)
    } else {
        None
    }
}

fn char_matches_upper(a: char, b: char) -> (r: bool)
    ensures
        r == upper_eq_char(a, b),
{
    a == b || (b >= 'A' && b <= 'Z' && a as u32 == b as u32 + 32)
}

fn eq_ignore_case_exec(s: &str, t: &str) -> (r: bool)
    ensures
        r == eq_ignore_case(s@, t@),
{
    let n = s.unicode_len();
    if n != t.unicode_len() {
        return false;
    }
    let mut i: usize = 0;
    while i < n
        invariant
            n == s@.len() && n == t@.len(),
            i <= n,
            forall|j: int| 0 <= j < i ==> upper_eq_char(s@[j], #[trigger] t@[j]),
        decreases n - i,
    {
        if !char_matches_upper(s.get_char(i), t.get_char(i)) {
            assert(!upper_eq_char(s@[i as int], t@[i as int]));
            return false;
        }
        i += 1;
    }
    true
}

/// Resolves a `mime` value to the encoding it selects, or `None` for an
/// unsupported one.
pub fn parse_format(m: &str) -> (r: Option<ImageFormat>)
    ensures
        r == format_of_mime(m@),
{
    if eq_ignore_case_exec(m, "PNG") {
        Some(ImageFormat::Png)
    } else if eq_ignore_case_exec(m, "JPEG") {
        Some(ImageFormat::Jpeg)
    } else if eq_ignore_case_exec(m, "JPG") {
        Some(ImageFormat::Jpeg)
    } else if eq_ignore_case_exec(m, "GIF") {
        Some(ImageFormat::Gif)
    } else if eq_ignore_case_exec(m, "ICO") {
        Some(ImageFormat::Ico)
    } else {
        None
    }
}

/// The file-name extension the encoding is served under: png, jpeg, gif
/// or ico.
pub open spec fn ext_chars(f: ImageFormat) -> Seq<char> {
    match f {
        ImageFormat::Png => "png"@,
        ImageFormat::Jpeg => "jpeg"@,
        ImageFormat::Gif => "gif"@,
        ImageFormat::Ico => "ico"@,
    }
}

/// The `Content-Type` value for the encoding: `image/` and the extension.
pub open spec fn content_type_chars(f: ImageFormat) -> Seq<char> {
    "image/"@ + ext_chars(f)
}

/// Builds the `Content-Type` value for the encoding.
pub fn content_type_string(f: ImageFormat) -> (r: String)
    ensures
        r@ == content_type_chars(f),
{
    let mut out = String::from_str("image/");
    match f {
        ImageFormat::Png => out.append("png"),
        ImageFormat::Jpeg => out.append("jpeg"),
        ImageFormat::Gif => out.append("gif"),
        ImageFormat::Ico => out.append("ico"),
    }
    out
}

} // verus!
