//! File extensions for image media types.

use vstd::prelude::*;
use vstd::utf8::is_ascii_chars;
use crate::text::same_text;

verus! {

/// Names what `str::to_lowercase` returns for a string: its Unicode lowercase
/// mapping, a function of the characters alone.
pub uninterp spec fn unicode_lowercase(s: Seq<char>) -> Seq<char>;

/// An ASCII character in lowercase: `A` to `Z` become `a` to `z`, every
/// other character stays.
pub open spec fn ascii_lower_char(c: char) -> char {
    if 'A' <= c && c <= 'Z' {
        ((c as u32) + 32) as char
    } else {
        c
    }
}

/// Every character of `s` through `ascii_lower_char`.
pub open spec fn ascii_lowercase(s: Seq<char>) -> Seq<char> {
    s.map_values(|c: char| ascii_lower_char(c))
}

/// Calls `str::to_lowercase`. The contract claims that the result is the
/// lowercase mapping of the argument's characters, named `unicode_lowercase`,
/// and, for a string of ASCII characters only, what the Unicode lowercase
/// mapping gives there: each of `A` to `Z` becomes `a` to `z`, one character
/// for one, and every other ASCII character stays as it is.
#[verifier::external_body]
fn to_lowercase(s: &str) -> (lower: String)
    ensures
        lower@ == unicode_lowercase(s@),
        is_ascii_chars(s@) ==> lower@ == ascii_lowercase(s@),
{
    s.to_lowercase()
}

/// The extension for an already lowercased media type; `png` for anything
/// that is not recognised.
pub open spec fn spec_extension_for_lowercase(m: Seq<char>) -> Seq<char> {
    if m == "image/jpeg"@ || m == "image/jpg"@ {
        "jpg"@
    } else if m == "image/png"@ {
        "png"@
    } else if m == "image/gif"@ || m == "image/vnd.compuserve.gif"@ {
        "gif"@
    } else if m == "image/webp"@ {
        "webp"@
    } else if m == "image/x-canon-cr2"@ || m == "image/cr2"@ {
        "cr2"@
    } else if m == "image/tiff"@ || m == "image/tif"@ {
        "tif"@
    } else if m == "image/bmp"@ || m == "image/vnd.microsoft.bitmap"@ {
        "bmp"@
    } else if m == "image/heif"@ {
        "heif"@
    } else if m == "image/avif"@ {
        "avif"@
    } else if m == "image/vnd.ms-photo"@ || m == "image/jxr"@ {
        "jxr"@
    } else if m == "image/vnd.adobe.photoshop"@ || m == "image/psd"@ {
        "psd"@
    } else if m == "image/vnd.microsoft.icon"@ || m == "image/ico"@ {
        "ico"@
    } else if m == "image/openraster"@ || m == "image/ora"@ {
        "ora"@
    } else {
        "png"@
    }
}

/// The extensions that media types are mapped to.
pub open spec fn is_supported_extension(ext: Seq<char>) -> bool {
    ||| ext == "jpg"@
    ||| ext == "png"@
    ||| ext == "gif"@
    ||| ext == "webp"@
    ||| ext == "cr2"@
    ||| ext == "tif"@
    ||| ext == "bmp"@
    ||| ext == "heif"@
    ||| ext == "avif"@
    ||| ext == "jxr"@
    ||| ext == "psd"@
    ||| ext == "ico"@
    ||| ext == "ora"@
}

/// The extension for a media type, matched case-insensitively.
pub open spec fn spec_extension_for(mime: Seq<char>) -> Seq<char> {
    spec_extension_for_lowercase(unicode_lowercase(mime))
}

/// Picks the extension for a media type that is already in lowercase.
pub fn extension_for_lowercase(mime: &str) -> (ext: &'static str)
    ensures
        ext@ == spec_extension_for_lowercase(mime@),
{
    if same_text(mime, "image/jpeg") || same_text(mime, "image/jpg") {
        "jpg"
    } else if same_text(mime, "image/png") {
        "png"
    } else if same_text(mime, "image/gif") || same_text(mime, "image/vnd.compuserve.gif") {
        "gif"
    } else if same_text(mime, "image/webp") {
        "webp"
    } else if same_text(mime, "image/x-canon-cr2") || same_text(mime, "image/cr2") {
        "cr2"
    } else if same_text(mime, "image/tiff") || same_text(mime, "image/tif") {
        "tif"
    } else if same_text(mime, "image/bmp") || same_text(mime, "image/vnd.microsoft.bitmap") {
        "bmp"
    } else if same_text(mime, "image/heif") {
        "heif"
    } else if same_text(mime, "image/avif") {
        "avif"
    } else if same_text(mime, "image/vnd.ms-photo") || same_text(mime, "image/jxr") {
        "jxr"
    } else if same_text(mime, "image/vnd.adobe.photoshop") || same_text(mime, "image/psd") {
        "psd"
    } else if same_text(mime, "image/vnd.microsoft.icon") || same_text(mime, "image/ico") {
        "ico"
    } else if same_text(mime, "image/openraster") || same_text(mime, "image/ora") {
        "ora"
    } else {
        "png"
    }
}

/// Provides the proper extension for a given image mimetype, ignoring case.
///
/// All common image formats are covered with default fallback to `png` for
/// unknown formats: jpg, png, gif, webp, cr2, tif, bmp, heif, avif, jxr, psd,
/// ico and ora.
pub fn extension_for(mime_string: &str) -> (ext: &'static str)
    ensures
        ext@ == spec_extension_for(mime_string@),
        is_ascii_chars(mime_string@) ==> ext@ == spec_extension_for_lowercase(ascii_lowercase(mime_string@)),
{
    let lower = to_lowercase(mime_string);
    extension_for_lowercase(lower.as_str())
}

/// The extension of a media type of the form `image/{ext}`, for a supported
/// extension `ext`, is `ext` itself; the usual other names of the formats
/// map to their extension too; and a media type outside `image/` is given
/// `png`.
pub proof fn lemma_extension_for_media_types(mime: Seq<char>, ext: Seq<char>)
    ensures
        is_supported_extension(ext) ==> spec_extension_for_lowercase("image/"@ + ext) == ext,
        spec_extension_for_lowercase("image/jpeg"@) == "jpg"@,
        spec_extension_for_lowercase("image/vnd.compuserve.gif"@) == "gif"@,
        spec_extension_for_lowercase("image/x-canon-cr2"@) == "cr2"@,
        spec_extension_for_lowercase("image/tiff"@) == "tif"@,
        spec_extension_for_lowercase("image/vnd.microsoft.bitmap"@) == "bmp"@,
        spec_extension_for_lowercase("image/vnd.ms-photo"@) == "jxr"@,
        spec_extension_for_lowercase("image/vnd.adobe.photoshop"@) == "psd"@,
        spec_extension_for_lowercase("image/vnd.microsoft.icon"@) == "ico"@,
        spec_extension_for_lowercase("image/openraster"@) == "ora"@,
        !(mime.len() >= 6 && mime.subrange(0, 6) == "image/"@) ==> spec_extension_for_lowercase(mime) == "png"@,
{
    reveal_strlit("image/jpeg");
    reveal_strlit("image/jpg");
    reveal_strlit("image/png");
    reveal_strlit("image/gif");
    reveal_strlit("image/vnd.compuserve.gif");
    reveal_strlit("image/webp");
    reveal_strlit("image/x-canon-cr2");
    reveal_strlit("image/cr2");
    reveal_strlit("image/tiff");
    reveal_strlit("image/tif");
    reveal_strlit("image/bmp");
    reveal_strlit("image/vnd.microsoft.bitmap");
    reveal_strlit("image/heif");
    reveal_strlit("image/avif");
    reveal_strlit("image/vnd.ms-photo");
    reveal_strlit("image/jxr");
    reveal_strlit("image/vnd.adobe.photoshop");
    reveal_strlit("image/psd");
    reveal_strlit("image/vnd.microsoft.icon");
    reveal_strlit("image/ico");
    reveal_strlit("image/openraster");
    reveal_strlit("image/ora");
    reveal_strlit("jpg");
    reveal_strlit("png");
    reveal_strlit("gif");
    reveal_strlit("webp");
    reveal_strlit("cr2");
    reveal_strlit("tif");
    reveal_strlit("bmp");
    reveal_strlit("heif");
    reveal_strlit("avif");
    reveal_strlit("jxr");
    reveal_strlit("psd");
    reveal_strlit("ico");
    reveal_strlit("ora");
    reveal_strlit("image/");
    assert("image/jpeg"@.len() == 10);
    assert("image/jpg"@.len() == 9);
    assert("image/png"@.len() == 9);
    assert("image/gif"@.len() == 9);
    assert("image/vnd.compuserve.gif"@.len() == 24);
    assert("image/webp"@.len() == 10);
    assert("image/x-canon-cr2"@.len() == 17);
    assert("image/cr2"@.len() == 9);
    assert("image/tiff"@.len() == 10);
    assert("image/tif"@.len() == 9);
    assert("image/bmp"@.len() == 9);
    assert("image/vnd.microsoft.bitmap"@.len() == 26);
    assert("image/heif"@.len() == 10);
    assert("image/avif"@.len() == 10);
    assert("image/vnd.ms-photo"@.len() == 18);
    assert("image/jxr"@.len() == 9);
    assert("image/vnd.adobe.photoshop"@.len() == 25);
    assert("image/psd"@.len() == 9);
    assert("image/vnd.microsoft.icon"@.len() == 24);
    assert("image/ico"@.len() == 9);
    assert("image/openraster"@.len() == 16);
    assert("image/ora"@.len() == 9);
    assert("image/jpeg"@[6] == 'j');
    assert("image/jpeg"@[7] == 'p');
    assert("image/jpg"@[6] == 'j');
    assert("image/jpg"@[7] == 'p');
    assert("image/png"@[6] == 'p');
    assert("image/png"@[7] == 'n');
    assert("image/gif"@[6] == 'g');
    assert("image/gif"@[7] == 'i');
    assert("image/vnd.compuserve.gif"@[6] == 'v');
    assert("image/vnd.compuserve.gif"@[7] == 'n');
    assert("image/vnd.compuserve.gif"@[10] == 'c');
    assert("image/webp"@[6] == 'w');
    assert("image/webp"@[7] == 'e');
    assert("image/x-canon-cr2"@[6] == 'x');
    assert("image/x-canon-cr2"@[7] == '-');
    assert("image/x-canon-cr2"@[10] == 'n');
    assert("image/cr2"@[6] == 'c');
    assert("image/cr2"@[7] == 'r');
    assert("image/tiff"@[6] == 't');
    assert("image/tiff"@[7] == 'i');
    assert("image/tif"@[6] == 't');
    assert("image/tif"@[7] == 'i');
    assert("image/bmp"@[6] == 'b');
    assert("image/bmp"@[7] == 'm');
    assert("image/vnd.microsoft.bitmap"@[6] == 'v');
    assert("image/vnd.microsoft.bitmap"@[7] == 'n');
    assert("image/vnd.microsoft.bitmap"@[10] == 'm');
    assert("image/heif"@[6] == 'h');
    assert("image/heif"@[7] == 'e');
    assert("image/avif"@[6] == 'a');
    assert("image/avif"@[7] == 'v');
    assert("image/vnd.ms-photo"@[6] == 'v');
    assert("image/vnd.ms-photo"@[7] == 'n');
    assert("image/vnd.ms-photo"@[10] == 'm');
    assert("image/jxr"@[6] == 'j');
    assert("image/jxr"@[7] == 'x');
    assert("image/vnd.adobe.photoshop"@[6] == 'v');
    assert("image/vnd.adobe.photoshop"@[7] == 'n');
    assert("image/vnd.adobe.photoshop"@[10] == 'a');
    assert("image/psd"@[6] == 'p');
    assert("image/psd"@[7] == 's');
    assert("image/vnd.microsoft.icon"@[6] == 'v');
    assert("image/vnd.microsoft.icon"@[7] == 'n');
    assert("image/vnd.microsoft.icon"@[10] == 'm');
    assert("image/ico"@[6] == 'i');
    assert("image/ico"@[7] == 'c');
    assert("image/openraster"@[6] == 'o');
    assert("image/openraster"@[7] == 'p');
    assert("image/openraster"@[10] == 'r');
    assert("image/ora"@[6] == 'o');
    assert("image/ora"@[7] == 'r');
    assert("image/"@ + "jpg"@ =~= "image/jpg"@);
    assert("image/"@ + "png"@ =~= "image/png"@);
    assert("image/"@ + "gif"@ =~= "image/gif"@);
    assert("image/"@ + "webp"@ =~= "image/webp"@);
    assert("image/"@ + "cr2"@ =~= "image/cr2"@);
    assert("image/"@ + "tif"@ =~= "image/tif"@);
    assert("image/"@ + "bmp"@ =~= "image/bmp"@);
    assert("image/"@ + "heif"@ =~= "image/heif"@);
    assert("image/"@ + "avif"@ =~= "image/avif"@);
    assert("image/"@ + "jxr"@ =~= "image/jxr"@);
    assert("image/"@ + "psd"@ =~= "image/psd"@);
    assert("image/"@ + "ico"@ =~= "image/ico"@);
    assert("image/"@ + "ora"@ =~= "image/ora"@);
    if !(mime.len() >= 6 && mime.subrange(0, 6) == "image/"@) {
        assert("image/jpeg"@.subrange(0, 6) =~= "image/"@);
        assert("image/jpg"@.subrange(0, 6) =~= "image/"@);
        assert("image/png"@.subrange(0, 6) =~= "image/"@);
        assert("image/gif"@.subrange(0, 6) =~= "image/"@);
        assert("image/vnd.compuserve.gif"@.subrange(0, 6) =~= "image/"@);
        assert("image/webp"@.subrange(0, 6) =~= "image/"@);
        assert("image/x-canon-cr2"@.subrange(0, 6) =~= "image/"@);
        assert("image/cr2"@.subrange(0, 6) =~= "image/"@);
        assert("image/tiff"@.subrange(0, 6) =~= "image/"@);
        assert("image/tif"@.subrange(0, 6) =~= "image/"@);
        assert("image/bmp"@.subrange(0, 6) =~= "image/"@);
        assert("image/vnd.microsoft.bitmap"@.subrange(0, 6) =~= "image/"@);
        assert("image/heif"@.subrange(0, 6) =~= "image/"@);
        assert("image/avif"@.subrange(0, 6) =~= "image/"@);
        assert("image/vnd.ms-photo"@.subrange(0, 6) =~= "image/"@);
        assert("image/jxr"@.subrange(0, 6) =~= "image/"@);
        assert("image/vnd.adobe.photoshop"@.subrange(0, 6) =~= "image/"@);
        assert("image/psd"@.subrange(0, 6) =~= "image/"@);
        assert("image/vnd.microsoft.icon"@.subrange(0, 6) =~= "image/"@);
        assert("image/ico"@.subrange(0, 6) =~= "image/"@);
        assert("image/openraster"@.subrange(0, 6) =~= "image/"@);
        assert("image/ora"@.subrange(0, 6) =~= "image/"@);
    }
}

/// Every media type, known or not, is given one of the supported extensions.
pub proof fn lemma_extension_is_supported(mime: Seq<char>)
    ensures
        is_supported_extension(spec_extension_for(mime)),
        is_supported_extension(spec_extension_for_lowercase(mime)),
{
}

} // verus!
