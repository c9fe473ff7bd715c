//! The local system clipboard and PNG images: the calls into arboard and image stay behind
//! small wrappers, and the checks around them are verified.
use vstd::prelude::*;
use image::{ImageDecoder, ImageEncoder};

verus! {

/// An image as rows of RGBA pixels, four bytes each.
#[derive(Debug, Clone, PartialEq, Eq)]
pub struct RgbaImage {
    pub width: usize,
    pub height: usize,
    pub bytes: Vec<u8>,
}

#[verifier::external_type_specification]
#[verifier::external_body]
pub struct ExClipboard(arboard::Clipboard);

/// Relies on `arboard::Clipboard::new`: a handle on the system clipboard, or why none.
#[verifier::external_body]
fn open_clipboard() -> (r: Result<arboard::Clipboard, String>) {
    arboard::Clipboard::new().map_err(|err| err.to_string())
}

/// Relies on `arboard::Clipboard::get_text`.
#[verifier::external_body]
fn clipboard_get_text(clipboard: &mut arboard::Clipboard) -> (r: Result<String, String>) {
    clipboard.get_text().map_err(|err| err.to_string())
}

/// Relies on `arboard::Clipboard::set_text`.
#[verifier::external_body]
fn clipboard_set_text(clipboard: &mut arboard::Clipboard, text: String) -> (r: Result<(), String>) {
    clipboard.set_text(text).map_err(|err| err.to_string())
}

/// Relies on `arboard::Clipboard::get_image`: the image's size and RGBA bytes.
#[verifier::external_body]
fn clipboard_get_image(clipboard: &mut arboard::Clipboard) -> (r: Result<RgbaImage, String>) {
    match clipboard.get_image() {
        Ok(image) => Ok(
            RgbaImage { width: image.width, height: image.height, bytes: image.bytes.into_owned() },
        ),
        Err(err) => Err(err.to_string()),
    }
}

/// An image whose sides fit in 32 bits and whose bytes are exactly four per pixel.
pub open spec fn well_formed_image(image: RgbaImage) -> bool {
    image.width <= u32::MAX && image.height <= u32::MAX && image.bytes@.len() == image.width
        * image.height * 4
}

/// Relies on `arboard::Clipboard::set_image`. On Linux it encodes the image as PNG with
/// `PngEncoder::write_image`, which asserts four bytes per pixel after narrowing the sides
/// to 32 bits.
#[verifier::external_body]
fn clipboard_set_image(clipboard: &mut arboard::Clipboard, image: RgbaImage) -> (r: Result<
    (),
    String,
>)
    requires
        well_formed_image(image),
{
    let data = arboard::ImageData {
        width: image.width,
        height: image.height,
        bytes: std::borrow::Cow::Owned(image.bytes),
    };
    clipboard.set_image(data).map_err(|err| err.to_string())
}

fn prefixed(prefix: &str, err: String) -> (r: String)
    ensures
        r@ == prefix@ + err@,
{
    let mut message = String::from_str(prefix);
    message.append(err.as_str());
    message
}

/// The text on the system clipboard.
pub fn read_text() -> (r: Result<String, String>) {
    let mut clipboard = match open_clipboard() {
        Ok(c) => c,
        Err(err) => return Err(prefixed("clipboard init failed: ", err)),
    };
    match clipboard_get_text(&mut clipboard) {
        Ok(text) => Ok(text),
        Err(err) => Err(prefixed("clipboard read failed: ", err)),
    }
}

/// Puts text on the system clipboard.
pub fn write_text(text: &str) -> (r: Result<(), String>) {
    let mut clipboard = match open_clipboard() {
        Ok(c) => c,
        Err(err) => return Err(prefixed("clipboard init failed: ", err)),
    };
    match clipboard_set_text(&mut clipboard, String::from_str(text)) {
        Ok(()) => Ok(()),
        Err(err) => Err(prefixed("clipboard write failed: ", err)),
    }
}

/// The image on the system clipboard.
pub fn read_image() -> (r: Result<RgbaImage, String>) {
    let mut clipboard = match open_clipboard() {
        Ok(c) => c,
        Err(err) => return Err(prefixed("clipboard init failed: ", err)),
    };
    match clipboard_get_image(&mut clipboard) {
        Ok(image) => Ok(image),
        Err(err) => Err(prefixed("clipboard image read failed: ", err)),
    }
}

/// Puts an image on the system clipboard.
/// An image that is not well formed is refused before the clipboard is touched.
pub fn write_image(image: RgbaImage) -> (r: Result<(), String>)
    ensures
        !well_formed_image(image) ==> (r matches Err(m) && m@ == "invalid image buffer"@),
{
    if !check_image(&image) {
        return Err(String::from_str("invalid image buffer"));
    }
    let mut clipboard = match open_clipboard() {
        Ok(c) => c,
        Err(err) => return Err(prefixed("clipboard init failed: ", err)),
    };
    match clipboard_set_image(&mut clipboard, image) {
        Ok(()) => Ok(()),
        Err(err) => Err(prefixed("clipboard image write failed: ", err)),
    }
}

/// The width and height that a PNG's header records, if the bytes open as a PNG.
pub uninterp spec fn png_dimensions_of(data: Seq<u8>) -> Option<(u32, u32)>;

/// Relies on `image::codecs::png::PngDecoder`: whether the header reads, and the width and
/// height it records.
#[verifier::external_body]
fn png_dimensions(data: &[u8]) -> (r: Result<(u32, u32), String>)
    ensures
        match r {
            Ok(d) => png_dimensions_of(data@) == Some(d),
            Err(_) => png_dimensions_of(data@) is None,
        },
{
    match image::codecs::png::PngDecoder::new(std::io::Cursor::new(data)) {
        Ok(decoder) => Ok(decoder.dimensions()),
        Err(err) => Err(err.to_string()),
    }
}

/// Whether an image is well formed.
fn check_image(image: &RgbaImage) -> (r: bool)
    ensures
        r == well_formed_image(*image),
{
    if image.width > u32::MAX as usize || image.height > u32::MAX as usize {
        return false;
    }
    let w = image.width as u64;
    let h = image.height as u64;
    assert(w * h <= 0xffff_fffe_0000_0001u64) by (nonlinear_arith)
        requires
            w <= u32::MAX,
            h <= u32::MAX,
    ;
    let pixels = w * h;
    let len = image.bytes.len() as u64;
    if pixels > len / 4 {
        return false;
    }
    len == pixels * 4
}

/// Relies on `image::load_from_memory_with_format` and `DynamicImage::into_rgba8`: the
/// decoded image as RGBA pixels, whose buffer `into_rgba8` makes four bytes per pixel of
/// its 32-bit sides.
#[verifier::external_body]
fn png_decode_rgba(data: &[u8]) -> (r: Result<RgbaImage, String>)
    ensures
        r matches Ok(image) ==> well_formed_image(image),
{
    match image::load_from_memory_with_format(data, image::ImageFormat::Png) {
        Ok(decoded) => {
            let rgba = decoded.into_rgba8();
            let (width, height) = rgba.dimensions();
            Ok(RgbaImage { width: width as usize, height: height as usize, bytes: rgba.into_raw() })
        },
        Err(err) => Err(err.to_string()),
    }
}

/// Relies on `image::codecs::png::PngEncoder::write_image`, which asserts that the buffer
/// holds exactly four bytes per pixel.
#[verifier::external_body]
fn png_encode_rgba(width: u32, height: u32, bytes: &[u8]) -> (r: Result<Vec<u8>, String>)
    requires
        bytes@.len() == width * height * 4,
{
    let mut out = Vec::new();
    let encoder = image::codecs::png::PngEncoder::new(&mut out);
    match encoder.write_image(bytes, width, height, image::ExtendedColorType::Rgba8) {
        Ok(()) => Ok(out),
        Err(err) => Err(err.to_string()),
    }
}

/// Encodes an RGBA image as PNG; an image whose byte count is not four per pixel, or whose
/// sides do not fit in 32 bits, is refused before any encoding.
pub fn encode_png(image: RgbaImage) -> (r: Result<Vec<u8>, String>)
    ensures
        !well_formed_image(image) ==> (r matches Err(m) && m@ == "invalid image buffer"@),
{
    if !check_image(&image) {
        return Err(String::from_str("invalid image buffer"));
    }
    png_encode_rgba(image.width as u32, image.height as u32, image.bytes.as_slice())
}

/// Decodes a PNG, refusing before decoding one whose header announces more than
/// `max_decoded_bytes` of RGBA pixels.
pub fn decode_png(data: &[u8], max_decoded_bytes: usize) -> (r: Result<RgbaImage, String>)
    ensures
        match png_dimensions_of(data@) {
            Some((w, h)) => w * h * 4 > max_decoded_bytes ==> r is Err,
            None => r is Err,
        },
{
    let (width, height) = match png_dimensions(data) {
        Ok(d) => d,
        Err(err) => return Err(prefixed("png decode failed: ", err)),
    };
    assert((width as u64) * (height as u64) <= 0xffff_fffe_0000_0001u64) by (nonlinear_arith)
        requires
            width <= u32::MAX,
            height <= u32::MAX,
    ;
    let pixels = (width as u64) * (height as u64);
    if pixels > (max_decoded_bytes / 4) as u64 {
        return Err(String::from_str("png image too large to decode safely"));
    }
    match png_decode_rgba(data) {
        Ok(image) => Ok(image),
        Err(err) => Err(prefixed("png decode failed: ", err)),
    }
}

} // verus!
