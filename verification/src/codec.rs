//! Encoders and decoders that the library takes from other crates: base64,
//! images, and the extension of a path.
use vstd::prelude::*;

verus! {

/// What the base64 engine `STANDARD` encodes these bytes to.
pub uninterp spec fn base64_encoded(bytes: Seq<u8>) -> Seq<char>;

/// What the base64 engine `STANDARD` decodes this text to; `None` where it
/// reports an error.
pub uninterp spec fn base64_decoded(text: Seq<char>) -> Option<Seq<u8>>;

/// The width and height of the image that `image::load_from_memory` decodes
/// from these bytes; `None` where it reports an error.
pub uninterp spec fn image_size(bytes: Seq<u8>) -> Option<(u32, u32)>;

/// The width, the height and the pixels, as rows of red, green and blue
/// bytes, of the image that `image::load_from_memory_with_format` decodes
/// from these bytes as a PNG; `None` where it reports an error.
pub uninterp spec fn png_picture(bytes: Seq<u8>) -> Option<(u32, u32, Seq<u8>)>;

/// What `Path::extension` returns for this path, on the platform that the
/// library is built for; `None` also where the extension is not Unicode.
pub uninterp spec fn path_extension(path: Seq<char>) -> Option<Seq<char>>;

/// The length of the base64 text for so many bytes, with padding.
pub open spec fn base64_length(bytes: nat) -> nat {
    (bytes / 3) * 4 + if bytes % 3 > 0 {
        4nat
    } else {
        0nat
    }
}

/// Whether the base64 text for so many bytes is no longer than a text can be.
pub fn base64_fits(bytes: usize) -> (r: bool)
    ensures
        r == (base64_length(bytes as nat) <= usize::MAX),
{
    match (bytes / 3).checked_mul(4) {
        Some(whole) => if bytes % 3 > 0 {
            whole.checked_add(4).is_some()
        } else {
            true
        },
        None => false,
    }
}

/// `Engine::encode` of the engine `base64::engine::general_purpose::STANDARD`:
/// the bytes in the standard alphabet, with padding. It panics where the
/// length of the text does not fit `usize`, which `requires` leaves out.
#[verifier::external_body]
pub(crate) fn base64_encode(data: &Vec<u8>) -> (r: String)
    requires
        base64_length(data@.len()) <= usize::MAX,
    ensures
        r@ == base64_encoded(data@),
{
    base64::Engine::encode(&base64::engine::general_purpose::STANDARD, data)
}

/// `Engine::decode` of the engine `base64::engine::general_purpose::STANDARD`:
/// the bytes that the text encodes, or `None` for its `DecodeError`.
#[verifier::external_body]
pub(crate) fn base64_decode(text: &str) -> (r: Option<Vec<u8>>)
    ensures
        match r {
            Some(bytes) => base64_decoded(text@) == Some(bytes@),
            None => base64_decoded(text@) is None,
        },
{
    base64::Engine::decode(&base64::engine::general_purpose::STANDARD, text).ok()
}

/// `image::load_from_memory`, and `dimensions` of what it decoded: the width
/// and height of the image, in a format guessed from its first bytes, or
/// `None` for its `ImageError`.
#[verifier::external_body]
pub(crate) fn image_dimensions(data: &Vec<u8>) -> (r: Option<(u32, u32)>)
    ensures
        r == image_size(data@),
{
    match image::load_from_memory(data) {
        Ok(img) => Some(image::GenericImageView::dimensions(&img)),
        Err(_) => None,
    }
}

/// `image::load_from_memory_with_format` for PNG, and `to_rgb8` of what it
/// decoded: the width, the height and the pixels of the image, three bytes
/// for each pixel, row by row; or `None` for its `ImageError`.
#[verifier::external_body]
pub(crate) fn decode_png(data: &Vec<u8>) -> (r: Option<(u32, u32, Vec<u8>)>)
    ensures
        match r {
            Some(picture) => png_picture(data@) == Some((picture.0, picture.1, picture.2@))
                && picture.2@.len() == 3 * picture.0 * picture.1,
            None => png_picture(data@) is None,
        },
{
    match image::load_from_memory_with_format(data, image::ImageFormat::Png) {
        Ok(img) => {
            let rgb = img.to_rgb8();
            Some((rgb.width(), rgb.height(), rgb.into_raw()))
        },
        Err(_) => None,
    }
}

/// `Path::extension`: the part of the file name after its last dot, as a
/// text; `None` where the path has none, or one that is not Unicode.
#[verifier::external_body]
pub(crate) fn extension_of(path: &str) -> (r: Option<String>)
    ensures
        match r {
            Some(extension) => path_extension(path@) == Some(extension@),
            None => path_extension(path@) is None,
        },
{
    match std::path::Path::new(path).extension() {
        Some(extension) => extension.to_str().map(String::from),
        None => None,
    }
}

/// A copy of these bytes.
pub fn copy_bytes(data: &Vec<u8>) -> (r: Vec<u8>)
    ensures
        r@ == data@,
{
    let mut r: Vec<u8> = Vec::new();
    let mut i: usize = 0;
    while i < data.len()
        invariant
            i <= data.len(),
            r@ == data@.subrange(0, i as int),
        decreases data.len() - i,
    {
        r.push(data[i]);
        i = i + 1;
    }
    assert(data@.subrange(0, data.len() as int) == data@);
    r
}

} // verus!
