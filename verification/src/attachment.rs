//! The image that may accompany a prompt, and its encoding for the wire:
//! PNG, then base64.

use vstd::prelude::*;

verus! {

/// A raw image: `width` x `height` pixels of four bytes each, red, green,
/// blue and alpha, row by row.
#[derive(Debug, PartialEq, Eq)]
pub struct ImagePayload {
    pub width: u32,
    pub height: u32,
    pub pixels: Vec<u8>,
}

/// What an image is: its size and its bytes.
pub struct ImageView {
    pub width: u32,
    pub height: u32,
    pub pixels: Seq<u8>,
}

impl View for ImagePayload {
    type V = ImageView;

    open spec fn view(&self) -> ImageView {
        ImageView { width: self.width, height: self.height, pixels: self.pixels@ }
    }
}

impl Clone for ImagePayload {
    fn clone(&self) -> (r: Self)
        ensures
            r@ == self@,
    {
        let mut pixels: Vec<u8> = Vec::new();
        let mut i: usize = 0;
        while i < self.pixels.len()
            invariant
                0 <= i <= self.pixels.len(),
                pixels@ == self.pixels@.subrange(0, i as int),
            decreases self.pixels.len() - i,
        {
            pixels.push(self.pixels[i]);
            i += 1;
            assert(pixels@ =~= self.pixels@.subrange(0, i as int));
        }
        assert(self.pixels@.subrange(0, self.pixels.len() as int) =~= self.pixels@);
        ImagePayload { width: self.width, height: self.height, pixels }
    }
}

/// Why an image could not be encoded.
#[derive(Debug, PartialEq, Eq)]
pub enum EncodeError {
    /// The buffer does not hold `width * height * 4` bytes.
    SizeMismatch,
    /// The PNG encoder refused the image; its message is kept.
    Encoder(String),
}

/// What went wrong with an encoding.
pub enum EncodeFault {
    SizeMismatch,
    Encoder(Seq<char>),
}

impl View for EncodeError {
    type V = EncodeFault;

    open spec fn view(&self) -> EncodeFault {
        match self {
            EncodeError::SizeMismatch => EncodeFault::SizeMismatch,
            EncodeError::Encoder(reason) => EncodeFault::Encoder(reason@),
        }
    }
}

/// What the PNG encoder of the `image` crate gives for an RGBA image of
/// the given size and bytes: the file it writes, or the message of the
/// error with which it refuses the image.
pub uninterp spec fn png_encoding(width: u32, height: u32, pixels: Seq<u8>) -> Result<
    Seq<u8>,
    Seq<char>,
>;

/// The character that stands for the six-bit value `n` in the standard
/// base64 alphabet: `A` to `Z`, `a` to `z`, `0` to `9`, `+`, `/`.
pub open spec fn base64_symbol(n: int) -> char {
    if n < 26 {
        ((65 + n) as u8) as char
    } else if n < 52 {
        ((97 + n - 26) as u8) as char
    } else if n < 62 {
        ((48 + n - 52) as u8) as char
    } else if n == 62 {
        '+'
    } else {
        '/'
    }
}

/// The base64 text of `bytes` in the standard alphabet with padding:
/// four characters for each three bytes, and for a last group of one or
/// two bytes four characters that end in `==` or `=`.
pub open spec fn base64_standard(bytes: Seq<u8>) -> Seq<char>
    decreases bytes.len(),
{
    if bytes.len() == 0 {
        Seq::empty()
    } else if bytes.len() == 1 {
        let a = bytes[0] as int;
        seq![base64_symbol(a / 4), base64_symbol((a % 4) * 16), '=', '=']
    } else if bytes.len() == 2 {
        let a = bytes[0] as int;
        let b = bytes[1] as int;
        seq![
            base64_symbol(a / 4),
            base64_symbol((a % 4) * 16 + b / 16),
            base64_symbol((b % 16) * 4),
            '=',
        ]
    } else {
        let a = bytes[0] as int;
        let b = bytes[1] as int;
        let c = bytes[2] as int;
        seq![
            base64_symbol(a / 4),
            base64_symbol((a % 4) * 16 + b / 16),
            base64_symbol((b % 16) * 4 + c / 64),
            base64_symbol(c % 64),
        ] + base64_standard(bytes.skip(3))
    }
}

/// How many bytes an image of that size takes.
pub open spec fn buffer_len(width: u32, height: u32) -> int {
    width * height * 4
}

/// The wire form of an image: the base64 text of its PNG file. A buffer
/// of the wrong length is a size mismatch; an image that the encoder
/// refuses fails with the encoder's message.
pub open spec fn encoded_image(width: u32, height: u32, pixels: Seq<u8>) -> Result<
    Seq<char>,
    EncodeFault,
> {
    if pixels.len() != buffer_len(width, height) {
        Err(EncodeFault::SizeMismatch)
    } else {
        match png_encoding(width, height, pixels) {
            Ok(png) => Ok(base64_standard(png)),
            Err(reason) => Err(EncodeFault::Encoder(reason)),
        }
    }
}

/// Calls `PngEncoder::write_image` of the `image` crate on an in-memory
/// buffer, with the default compression and filter, for 8-bit RGBA. What
/// comes back is named `png_encoding`: the file it wrote, or the message
/// of its error.
#[verifier::external_body]
fn png_encode(pixels: &Vec<u8>, width: u32, height: u32) -> (r: Result<Vec<u8>, String>)
    requires
        pixels@.len() == buffer_len(width, height),
    ensures
        match r {
            Ok(png) => png_encoding(width, height, pixels@) == Ok::<Seq<u8>, Seq<char>>(png@),
            Err(reason) => png_encoding(width, height, pixels@) == Err::<Seq<u8>, Seq<char>>(
                reason@,
            ),
        },
{
    let mut out: Vec<u8> = Vec::new();
    let encoder = image::codecs::png::PngEncoder::new(&mut out);
    match image::ImageEncoder::write_image(
        encoder,
        pixels.as_slice(),
        width,
        height,
        image::ExtendedColorType::Rgba8,
    ) {
        Ok(()) => Ok(out),
        Err(e) => Err(e.to_string()),
    }
}

/// Calls `Engine::encode` of the `base64` crate on its `STANDARD` engine,
/// which writes the standard alphabet with padding.
#[verifier::external_body]
fn base64_encode(bytes: &Vec<u8>) -> (r: String)
    ensures
        r@ == base64_standard(bytes@),
{
    base64::Engine::encode(&base64::engine::general_purpose::STANDARD, bytes)
}

/// Whether the buffer of `image` has the length that its size asks for.
pub fn has_valid_size(image: &ImagePayload) -> (r: bool)
    ensures
        r == (image.pixels@.len() == buffer_len(image.width, image.height)),
{
    let w: u128 = image.width as u128;
    let h: u128 = image.height as u128;
    assert(w * h <= 0xFFFF_FFFF * 0xFFFF_FFFF) by (nonlinear_arith)
        requires
            0 <= w <= 0xFFFF_FFFF,
            0 <= h <= 0xFFFF_FFFF,
    ;
    let wanted: u128 = w * h * 4;
    image.pixels.len() as u128 == wanted
}

/// Encodes a raw image as PNG and that file as base64 text.
///
/// A buffer of the wrong length gives `SizeMismatch`; an image that the
/// PNG encoder refuses gives `Encoder` with the encoder's message.
pub fn encode_image(image: &ImagePayload) -> (r: Result<String, EncodeError>)
    ensures
        match r {
            Ok(text) => encoded_image(image.width, image.height, image.pixels@) == Ok::<
                Seq<char>,
                EncodeFault,
            >(text@),
            Err(e) => encoded_image(image.width, image.height, image.pixels@) == Err::<
                Seq<char>,
                EncodeFault,
            >(e@),
        },
{
    if !has_valid_size(image) {
        return Err(EncodeError::SizeMismatch);
    }
    match png_encode(&image.pixels, image.width, image.height) {
        Ok(png) => Ok(base64_encode(&png)),
        Err(message) => Err(EncodeError::Encoder(message)),
    }
}

/// Reads an encoded image file and gives its pixels as RGBA bytes.
///
/// Calls `load_from_memory` of the `image` crate and converts to 8-bit
/// RGBA; an error of the decoder comes back as its message. Which decoder
/// reads the file depends on what the process has registered with the
/// crate, so nothing is promised of the result.
#[verifier::external_body]
pub fn load_image_from_bytes(bytes: &[u8]) -> (r: Result<Vec<u8>, String>)
{
    match image::load_from_memory(bytes) {
        Ok(img) => Ok(img.to_rgba8().into_raw()),
        Err(e) => Err(e.to_string()),
    }
}

/// The pixels of a window icon with the size it is declared to have.
#[derive(Debug, PartialEq, Eq)]
pub struct AppIcon {
    pub rgba: Vec<u8>,
    pub width: u32,
    pub height: u32,
}

/// Makes the icon of what the decoder gave: its pixels under the declared
/// size, or its failure as it is.
pub fn icon_from_decoded(decoded: Result<Vec<u8>, String>, width: u32, height: u32) -> (r: Result<
    AppIcon,
    String,
>)
    ensures
        match decoded {
            Ok(rgba) => r == Ok::<AppIcon, String>(AppIcon { rgba, width, height }),
            Err(reason) => r == Err::<AppIcon, String>(reason),
        },
{
    match decoded {
        Ok(rgba) => Ok(AppIcon { rgba, width, height }),
        Err(reason) => Err(reason),
    }
}

/// Decodes an icon file. The declared size is taken as given, whatever
/// the size of the picture in the file.
pub fn create_app_icon(image_bytes: &[u8], width: u32, height: u32) -> (r: Result<AppIcon, String>)
    ensures
        r is Ok ==> r->Ok_0.width == width && r->Ok_0.height == height,
{
    icon_from_decoded(load_image_from_bytes(image_bytes), width, height)
}

} // verus!
