//! Images as data URIs: the media type that a file's extension stands
//! for, and the URI made of that type and the file's bytes in base64.

use base64::Engine;
use vstd::prelude::*;

verus! {

/// The media type for an extension that is already in lower case. What
/// the table does not know is taken for a PNG image.
pub open spec fn mime_of_lowercase(extension: Seq<char>) -> Seq<char> {
    if extension == "jpg"@ || extension == "jpeg"@ {
        "image/jpeg"@
    } else if extension == "png"@ {
        "image/png"@
    } else if extension == "gif"@ {
        "image/gif"@
    } else if extension == "webp"@ {
        "image/webp"@
    } else {
        "image/png"@
    }
}

/// `text` with its characters in lower case, as `str::to_lowercase`
/// gives it.
pub uninterp spec fn lowercase_of(text: Seq<char>) -> Seq<char>;

/// The media type for the extension of a file, in whatever case it is
/// written. A file without an extension is taken for a PNG image.
pub open spec fn mime_of_extension(extension: Option<Seq<char>>) -> Seq<char> {
    match extension {
        Some(written) => mime_of_lowercase(lowercase_of(written)),
        None => "image/png"@,
    }
}

/// Whether `mime` is one of the media types that the table gives.
pub open spec fn is_image_mime(mime: Seq<char>) -> bool {
    mime == "image/jpeg"@ || mime == "image/png"@ || mime == "image/gif"@ || mime
        == "image/webp"@
}

/// Whether `c` is a character of padded base64 in the standard alphabet.
pub open spec fn is_base64_char(c: char) -> bool {
    ||| 'A' <= c <= 'Z'
    ||| 'a' <= c <= 'z'
    ||| '0' <= c <= '9'
    ||| c == '+'
    ||| c == '/'
    ||| c == '='
}

/// Whether `text` holds characters of padded base64 only.
pub open spec fn is_base64_text(text: Seq<char>) -> bool {
    forall|i: int| 0 <= i < text.len() ==> is_base64_char(#[trigger] text[i])
}

/// How many characters the padded base64 of `n` bytes has.
pub open spec fn base64_len(n: nat) -> nat {
    4 * ((n + 2) / 3)
}

/// The padded base64 of `bytes` in the standard alphabet, as the engine
/// `STANDARD` of the crate `base64` encodes it.
pub uninterp spec fn base64_of(bytes: Seq<u8>) -> Seq<char>;

/// The data URI for content of the type `mime` whose base64 is `payload`.
pub open spec fn data_uri_of(mime: Seq<char>, payload: Seq<char>) -> Seq<char> {
    "data:"@ + mime + ";base64,"@ + payload
}

/// Whether `uri` is the data URI of an image: `data:`, one of the media
/// types of the table, `;base64,`, and then characters of base64 to the
/// end.
pub open spec fn is_image_data_uri(uri: Seq<char>) -> bool {
    exists|mime: Seq<char>, payload: Seq<char>|
        is_image_mime(mime) && is_base64_text(payload) && uri == #[trigger] data_uri_of(
            mime,
            payload,
        )
}

/// What holds of an extension that `Path::extension` finds in `path`,
/// whatever the platform: it is free of dots, and it stands in `path`
/// behind a dot that is not the first character of `path`.
pub open spec fn is_extension_in(extension: Seq<char>, path: Seq<char>) -> bool {
    &&& !extension.contains('.')
    &&& exists|dot: int|
        0 < dot && dot + 1 + extension.len() <= path.len() && path[dot] == '.'
            && #[trigger] path.subrange(dot + 1, dot + 1 + extension.len()) == extension
}

/// Whether `extension` can be what `Path::extension` finds in `path`.
pub open spec fn extension_fits(extension: Option<Seq<char>>, path: Seq<char>) -> bool {
    match extension {
        Some(found) => is_extension_in(found, path),
        None => true,
    }
}

/// An optional string slice as the characters it holds.
pub open spec fn text_of(text: Option<&str>) -> Option<Seq<char>> {
    match text {
        Some(t) => Some(t@),
        None => None,
    }
}

/// `std::path::Path::extension` of `path`, as a string slice where it is
/// valid Unicode. The extension is the part of the file name behind its
/// last dot; there is none where the file name has no dot or only the one
/// it begins with. So an extension holds no dot and follows, in `path`, a
/// dot that has at least one character before it. Which part of `path`
/// is the file name depends on the platform and is not stated.
#[verifier::external_body]
fn path_extension(path: &str) -> (extension: Option<&str>)
    ensures
        extension_fits(text_of(extension), path@),
{
    std::path::Path::new(path).extension().and_then(|found| found.to_str())
}

/// `str::to_lowercase`.
#[verifier::external_body]
fn to_lowercase(text: &str) -> (lowered: String)
    ensures
        lowered@ == lowercase_of(text@),
{
    text.to_lowercase()
}

/// `Engine::encode` of the crate `base64`, on its engine `STANDARD`: the
/// standard alphabet, with padding. The result has four characters for
/// every three bytes begun, all of them from that alphabet or the padding
/// character. The call panics where that length does not fit in `usize`.
#[verifier::external_body]
fn base64_encode(bytes: &[u8]) -> (text: String)
    requires
        base64_len(bytes@.len()) <= usize::MAX,
    ensures
        text@ == base64_of(bytes@),
        text@.len() == base64_len(bytes@.len()),
        is_base64_text(text@),
{
    base64::engine::general_purpose::STANDARD.encode(bytes)
}

/// The media type for `extension`, which is in lower case already.
pub fn mime_for_lowercase(extension: &str) -> (mime: &'static str)
    ensures
        mime@ == mime_of_lowercase(extension@),
        is_image_mime(mime@),
{
    if str_eq(extension, "jpg") || str_eq(extension, "jpeg") {
        "image/jpeg"
    } else if str_eq(extension, "png") {
        "image/png"
    } else if str_eq(extension, "gif") {
        "image/gif"
    } else if str_eq(extension, "webp") {
        "image/webp"
    } else {
        "image/png"
    }
}

/// The media type for the extension of a file, as it is written in the
/// file's name, `None` for a file without one.
pub fn mime_for_extension(extension: Option<&str>) -> (mime: &'static str)
    ensures
        mime@ == mime_of_extension(text_of(extension)),
        is_image_mime(mime@),
{
    match extension {
        Some(written) => {
            let lowered = to_lowercase(written);
            mime_for_lowercase(lowered.as_str())
        },
        None => "image/png",
    }
}

/// The data URI for content of the type `mime` whose base64 is `payload`.
pub fn data_uri(mime: &str, payload: &str) -> (uri: String)
    ensures
        uri@ == data_uri_of(mime@, payload@),
{
    String::from_str("data:").concat(mime).concat(";base64,").concat(payload)
}

/// The data URI of an image with the content `bytes`, for a file whose
/// name has the extension `extension`.
pub fn data_uri_for_extension(extension: Option<&str>, bytes: &[u8]) -> (uri: String)
    requires
        base64_len(bytes@.len()) <= usize::MAX,
    ensures
        uri@ == data_uri_of(mime_of_extension(text_of(extension)), base64_of(bytes@)),
        is_image_data_uri(uri@),
{
    let mime = mime_for_extension(extension);
    let payload = base64_encode(bytes);
    let uri = data_uri(mime, payload.as_str());
    assert(uri@ == data_uri_of(mime@, payload@));
    uri
}

/// The data URI of the image that was read from the file at `path` and
/// has the content `bytes`. The media type goes by the extension that
/// the path has on this platform; the payload is the base64 of `bytes`.
/// A path without any dot has no extension.
pub fn image_data_uri(path: &str, bytes: &[u8]) -> (uri: String)
    requires
        base64_len(bytes@.len()) <= usize::MAX,
    ensures
        exists|extension: Option<Seq<char>>| #[trigger]
            extension_fits(extension, path@) && uri@ == data_uri_of(
                mime_of_extension(extension),
                base64_of(bytes@),
            ),
        !path@.contains('.') ==> uri@ == data_uri_of("image/png"@, base64_of(bytes@)),
        is_image_data_uri(uri@),
{
    let extension = path_extension(path);
    let uri = data_uri_for_extension(extension, bytes);
    proof {
        assert(extension_fits(text_of(extension), path@));
        if !path@.contains('.') {
            lemma_extension_needs_dot(text_of(extension), path@);
        }
    }
    uri
}

/// A path without any dot has no extension.
pub proof fn lemma_extension_needs_dot(extension: Option<Seq<char>>, path: Seq<char>)
    requires
        extension_fits(extension, path),
        !path.contains('.'),
    ensures
        extension is None,
{
    if let Some(found) = extension {
        let dot = choose|dot: int|
            0 < dot && dot + 1 + found.len() <= path.len() && path[dot] == '.'
                && #[trigger] path.subrange(dot + 1, dot + 1 + found.len()) == found;
        assert(path.contains(path[dot]));
    }
}

/// Whether two string slices hold the same characters.
fn str_eq(a: &str, b: &str) -> (same: bool)
    ensures
        same == (a@ == b@),
{
    a.to_owned() == b.to_owned()
}

} // verus!
