//! What the clipboard may hold in place of an image: a path to an image
//! file, in one of several spellings; and the repair of pixels that were
//! copied with an empty alpha channel.

use vstd::prelude::*;
use vstd::string::*;
use crate::attachment::ImagePayload;
use crate::text::{
    contains_seq, has_prefix, occurs_at, push_char, replace_char, starts_with_text, strip_text,
    stripped, to_chars, trim_text, trimmed,
};

verus! {

/// A letter of `A` to `Z` as its small letter; any other character as it
/// is.
pub open spec fn ascii_lower(c: char) -> char {
    if 'A' <= c && c <= 'Z' {
        ((c as u8) + 32) as char
    } else {
        c
    }
}

/// `s` with its letters of `A` to `Z` made small.
pub open spec fn lowered(s: Seq<char>) -> Seq<char> {
    Seq::new(s.len(), |i: int| ascii_lower(s[i]))
}

/// Whether `ext`, whatever the case of its letters, is the extension of an
/// image file.
pub open spec fn is_image_extension(ext: Seq<char>) -> bool {
    let e = lowered(ext);
    e == "png"@ || e == "jpg"@ || e == "jpeg"@ || e == "gif"@ || e == "bmp"@ || e == "webp"@ || e
        == "tiff"@ || e == "ico"@ || e == "tga"@
}

/// A dot and `ext`, as an extension stands in a path.
pub open spec fn dotted(ext: Seq<char>) -> Seq<char> {
    seq!['.'] + ext
}

/// What a text from the clipboard gives as a path, if anything.
///
/// With the white space around it gone: a text of more than three bytes
/// whose second character is a colon is a path as it is; a text that
/// begins with `file://` is a path only if it begins with `file:///`, and
/// then what follows, each `/` as `\`; a text in double quotes is what
/// stands between them.
pub open spec fn extracted_path(text: Seq<char>) -> Option<Seq<char>> {
    let t = trimmed(text);
    if vstd::utf8::encode_utf8(t).len() > 3 && t.len() >= 2 && t[1] == ':' {
        Some(t)
    } else if has_prefix(t, "file://"@) {
        if has_prefix(t, "file:///"@) {
            Some(replace_char(t.skip("file:///"@.len() as int), '/', '\\'))
        } else {
            None
        }
    } else if t.len() >= 2 && t.first() == '"' && t.last() == '"' {
        Some(t.subrange(1, t.len() - 1))
    } else {
        None
    }
}

/// A text that is a double quote and nothing else, but for white space.
pub open spec fn is_lone_quote(text: Seq<char>) -> bool {
    trimmed(text) == seq!['"']
}

/// A path that every platform takes apart in the same way: it holds no
/// `\` and no `:`, and does not begin with two slashes, so that `/` is
/// its only separator and nothing in it is a prefix.
pub open spec fn is_portable(path: Seq<char>) -> bool {
    &&& forall|i: int|
        0 <= i < path.len() ==> {
            let c = #[trigger] path[i];
            c != '\\' && c != ':'
        }
    &&& !(path.len() >= 2 && path[0] == '/' && path[1] == '/')
}

/// Where the last `c` of `s` stands, or -1 where it has none.
pub open spec fn last_index(s: Seq<char>, c: char) -> int
    decreases s.len(),
{
    if s.len() == 0 {
        -1
    } else if s.last() == c {
        s.len() - 1
    } else {
        last_index(s.drop_last(), c)
    }
}

/// What follows the last slash of a path, or the whole path where it has
/// no slash.
pub open spec fn final_part(path: Seq<char>) -> Seq<char> {
    path.skip(last_index(path, '/') + 1)
}

/// A portable path whose final part is its last component: a path without
/// a slash, or one whose final part is neither empty nor a single dot.
pub open spec fn ends_in_component(path: Seq<char>) -> bool {
    &&& is_portable(path)
    &&& last_index(path, '/') < 0 || (final_part(path).len() > 0 && final_part(path) != seq!['.'])
}

/// The extension of a file name: what follows its last dot. A name
/// without a dot has none, nor has one whose only dot is its first
/// character, nor has `..`.
pub open spec fn name_extension(name: Seq<char>) -> Option<Seq<char>> {
    let k = last_index(name, '.');
    if k <= 0 || name == seq!['.', '.'] {
        None
    } else {
        Some(name.skip(k + 1))
    }
}

/// Whether a file name has the extension of an image file.
pub open spec fn names_image(name: Seq<char>) -> bool {
    match name_extension(name) {
        Some(ext) => is_image_extension(ext),
        None => false,
    }
}

/// Calls `Path::extension` of std on `path` and gives the extension as
/// text. Where there is one, it stands in the path behind a dot. Where
/// the path is portable and its final part is its last component, that
/// part is the file name and the extension is what follows its last dot,
/// as `name_extension` says. How std takes any other path apart differs
/// between platforms and is not stated.
#[verifier::external_body]
fn path_extension(path: &str) -> (r: Option<String>)
    ensures
        r is Some ==> contains_seq(path@, dotted(r->0@)),
        ends_in_component(path@) ==> match r {
            Some(ext) => name_extension(final_part(path@)) == Some(ext@),
            None => name_extension(final_part(path@)) is None,
        },
{
    std::path::Path::new(path).extension().map(|e| e.to_string_lossy().into_owned())
}

fn lower_char(c: char) -> (r: char)
    ensures
        r == ascii_lower(c),
{
    if 'A' <= c && c <= 'Z' {
        ((c as u8) + 32) as char
    } else {
        c
    }
}

fn same_chars(a: &Vec<char>, name: &str) -> (r: bool)
    ensures
        r == (a@ == name@),
{
    let b: Vec<char> = to_chars(name);
    if a.len() != b.len() {
        return false;
    }
    let mut i: usize = 0;
    while i < a.len()
        invariant
            0 <= i <= a.len(),
            a.len() == b.len(),
            b@ == name@,
            forall|j: int| 0 <= j < i ==> a@[j] == b@[j],
        decreases a.len() - i,
    {
        if a[i] != b[i] {
            return false;
        }
        i += 1;
    }
    assert(a@ =~= b@);
    true
}

/// Whether `ext` is the extension of an image file: one of `png`, `jpg`,
/// `jpeg`, `gif`, `bmp`, `webp`, `tiff`, `ico`, `tga`, in any case.
pub fn has_image_extension(ext: &str) -> (r: bool)
    ensures
        r == is_image_extension(ext@),
{
    let chars: Vec<char> = to_chars(ext);
    let mut low: Vec<char> = Vec::new();
    let mut i: usize = 0;
    while i < chars.len()
        invariant
            0 <= i <= chars.len(),
            chars@ == ext@,
            low@.len() == i,
            forall|j: int| 0 <= j < i ==> low@[j] == ascii_lower(chars@[j]),
        decreases chars.len() - i,
    {
        low.push(lower_char(chars[i]));
        i += 1;
    }
    assert(low@ =~= lowered(ext@));
    same_chars(&low, "png") || same_chars(&low, "jpg") || same_chars(&low, "jpeg") || same_chars(
        &low,
        "gif",
    ) || same_chars(&low, "bmp") || same_chars(&low, "webp") || same_chars(&low, "tiff")
        || same_chars(&low, "ico") || same_chars(&low, "tga")
}

/// Whether `path` names an image file, going by the extension that std
/// finds in it. A portable path whose final part is its last component is
/// one exactly if what follows the last dot of that part is an image
/// extension. Any other path is one only if an image extension stands in
/// it behind a dot.
pub fn is_image_file(path: &str) -> (r: bool)
    ensures
        ends_in_component(path@) ==> r == names_image(final_part(path@)),
        r ==> exists|ext: Seq<char>|
            is_image_extension(ext) && contains_seq(path@, #[trigger] dotted(ext)),
        !path@.contains('.') ==> !r,
{
    match path_extension(path) {
        Some(ext) => {
            proof {
                let i = choose|i: int| occurs_at(path@, dotted(ext@), i);
                assert(path@.subrange(i, i + dotted(ext@).len())[0] == '.');
                assert(path@[i] == '.');
            }
            has_image_extension(ext.as_str())
        },
        None => false,
    }
}

/// Reads a path out of a text from the clipboard, where it holds one.
pub fn extract_file_path_from_text(text: &str) -> (r: Option<String>)
    requires
        !is_lone_quote(text@),
    ensures
        match r {
            Some(path) => extracted_path(text@) == Some(path@),
            None => extracted_path(text@) is None,
        },
{
    let t = trim_text(text);
    let chars: Vec<char> = to_chars(t);
    let n: usize = chars.len();
    if t.as_bytes().len() > 3 && n >= 2 && chars[1] == ':' {
        return Some(t.to_owned());
    }
    if starts_with_text(t, "file://") {
        if !starts_with_text(t, "file:///") {
            return None;
        }
        proof {
            reveal_strlit("file:///");
        }
        let mut path = String::new();
        let mut i: usize = 8;
        while i < n
            invariant
                8 <= i <= n,
                n == chars@.len(),
                chars@ == t@,
                path@ == replace_char(t@.subrange(8, i as int), '/', '\\'),
            decreases n - i,
        {
            if chars[i] == '/' {
                push_char(&mut path, '\\');
            } else {
                push_char(&mut path, chars[i]);
            }
            i += 1;
            assert(path@ =~= replace_char(t@.subrange(8, i as int), '/', '\\'));
        }
        assert(t@.subrange(8, n as int) =~= t@.skip(8));
        return Some(path);
    }
    if n >= 1 && chars[0] == '"' && chars[n - 1] == '"' {
        assert(n >= 2) by {
            if n == 1 {
                assert(t@ =~= seq!['"']);
            }
        };
        return Some(t.substring_char(1, n - 1).to_owned());
    }
    None
}

/// The paths that a text from the clipboard may stand for, in the order in
/// which they are to be tried: the text without the white space and the
/// double quotes around it, then the path that can be read out of it,
/// where there is one.
pub open spec fn candidates(text: Seq<char>) -> Seq<Seq<char>> {
    let plain = seq![stripped(trimmed(text), '"')];
    match extracted_path(text) {
        Some(path) => plain.push(path),
        None => plain,
    }
}

/// What is said where the clipboard holds a text that leads to no image.
pub open spec fn not_a_path(text: Seq<char>) -> Seq<char> {
    "Clipboard contains text '"@ + text + "' but not a valid image file path"@
}

/// The paths that a text from the clipboard may stand for, in the order in
/// which they are to be tried.
pub fn path_candidates(text: &str) -> (r: Vec<String>)
    requires
        !is_lone_quote(text@),
    ensures
        r@.len() == candidates(text@).len(),
        forall|i: int| 0 <= i < r@.len() ==> (#[trigger] r@[i])@ == candidates(text@)[i],
{
    let mut r: Vec<String> = Vec::new();
    r.push(strip_text(trim_text(text), '"').to_owned());
    match extract_file_path_from_text(text) {
        Some(path) => {
            r.push(path);
        },
        None => {},
    }
    r
}

/// What is said where the clipboard holds a text that leads to no image.
pub fn not_a_path_message(text: &str) -> (r: String)
    ensures
        r@ == not_a_path(text@),
{
    let mut r = "Clipboard contains text '".to_owned();
    r.append(text);
    r.append("' but not a valid image file path");
    r
}

/// The byte at `offset` of pixel `k`.
pub open spec fn channel(pixels: Seq<u8>, k: int, offset: int) -> u8 {
    pixels[4 * k + offset]
}

/// Every whole pixel has alpha 0.
pub open spec fn all_transparent(pixels: Seq<u8>) -> bool {
    forall|k: int| 0 <= k < pixels.len() / 4 ==> #[trigger] channel(pixels, k, 3) == 0
}

/// Pixel `k` has a red, green or blue that is not 0.
pub open spec fn has_colour(pixels: Seq<u8>, k: int) -> bool {
    channel(pixels, k, 0) != 0 || channel(pixels, k, 1) != 0 || channel(pixels, k, 2) != 0
}

/// No whole pixel has a colour.
pub open spec fn all_black(pixels: Seq<u8>) -> bool {
    forall|k: int| 0 <= k < pixels.len() / 4 ==> !#[trigger] has_colour(pixels, k)
}

/// The pixels with the alpha of each coloured pixel set to 255.
pub open spec fn with_colours_opaque(pixels: Seq<u8>) -> Seq<u8> {
    Seq::new(
        pixels.len(),
        |i: int|
            if i / 4 < pixels.len() / 4 && i % 4 == 3 && has_colour(pixels, i / 4) {
                255u8
            } else {
                pixels[i]
            },
    )
}

/// The pixels with each whole pixel set to opaque grey.
pub open spec fn all_grey(pixels: Seq<u8>) -> Seq<u8> {
    Seq::new(
        pixels.len(),
        |i: int|
            if i / 4 < pixels.len() / 4 {
                if i % 4 == 3 {
                    255u8
                } else {
                    128u8
                }
            } else {
                pixels[i]
            },
    )
}

/// The pixels as they are used. Where any pixel has an alpha above 0 they
/// are kept. Pixels that all have alpha 0 were copied without their alpha:
/// each coloured pixel becomes opaque, and where no pixel has a colour
/// each becomes opaque grey. Bytes behind the last whole pixel stay.
pub open spec fn repaired(pixels: Seq<u8>) -> Seq<u8> {
    if !all_transparent(pixels) {
        pixels
    } else if all_black(pixels) {
        all_grey(pixels)
    } else {
        with_colours_opaque(pixels)
    }
}

fn check_all_transparent(pixels: &Vec<u8>) -> (r: bool)
    ensures
        r == all_transparent(pixels@),
{
    let count: usize = pixels.len() / 4;
    let mut k: usize = 0;
    while k < count
        invariant
            0 <= k <= count,
            count == pixels.len() / 4,
            forall|j: int| 0 <= j < k ==> #[trigger] channel(pixels@, j, 3) == 0,
        decreases count - k,
    {
        if pixels[4 * k + 3] != 0 {
            assert(channel(pixels@, k as int, 3) != 0);
            return false;
        }
        k += 1;
    }
    true
}

fn check_all_black(pixels: &Vec<u8>) -> (r: bool)
    ensures
        r == all_black(pixels@),
{
    let count: usize = pixels.len() / 4;
    let mut k: usize = 0;
    while k < count
        invariant
            0 <= k <= count,
            count == pixels.len() / 4,
            forall|j: int| 0 <= j < k ==> !#[trigger] has_colour(pixels@, j),
        decreases count - k,
    {
        if pixels[4 * k] != 0 || pixels[4 * k + 1] != 0 || pixels[4 * k + 2] != 0 {
            assert(has_colour(pixels@, k as int));
            return false;
        }
        k += 1;
    }
    true
}

/// Repairs pixels that were copied with an empty alpha channel.
pub fn repair_transparency(pixels: Vec<u8>) -> (r: Vec<u8>)
    ensures
        r@ == repaired(pixels@),
{
    if !check_all_transparent(&pixels) {
        return pixels;
    }
    let grey: bool = check_all_black(&pixels);
    let count: usize = pixels.len() / 4;
    let ghost before = pixels@;
    let mut out = pixels;
    let mut k: usize = 0;
    while k < count
        invariant
            0 <= k <= count,
            count == before.len() / 4,
            out.len() == before.len(),
            forall|i: int|
                0 <= i < 4 * k ==> out@[i] == if grey {
                    all_grey(before)[i]
                } else {
                    with_colours_opaque(before)[i]
                },
            forall|i: int| 4 * k <= i < before.len() ==> out@[i] == before[i],
        decreases count - k,
    {
        let base: usize = 4 * k;
        if grey {
            out.set(base, 128);
            out.set(base + 1, 128);
            out.set(base + 2, 128);
            out.set(base + 3, 255);
        } else if out[base] != 0 || out[base + 1] != 0 || out[base + 2] != 0 {
            assert(has_colour(before, k as int));
            out.set(base + 3, 255);
        } else {
            assert(!has_colour(before, k as int));
        }
        k += 1;
    }
    assert(out@ =~= repaired(before));
    out
}

/// What is said of a size that does not fit.
pub open spec fn size_fault(width: usize, height: usize) -> Option<Seq<char>> {
    if width > u32::MAX {
        Some("Invalid image width"@)
    } else if height > u32::MAX {
        Some("Invalid image height"@)
    } else {
        None
    }
}

/// Makes an image of what the clipboard gave: the size as given, the
/// pixels repaired. A width or a height above `u32::MAX` is refused.
pub fn process_image_data(width: usize, height: usize, pixels: Vec<u8>) -> (r: Result<
    ImagePayload,
    String,
>)
    ensures
        match r {
            Ok(image) => {
                &&& size_fault(width, height) is None
                &&& image.width == width
                &&& image.height == height
                &&& image.pixels@ == repaired(pixels@)
            },
            Err(reason) => size_fault(width, height) == Some(reason@),
        },
{
    if width > u32::MAX as usize {
        return Err("Invalid image width".to_owned());
    }
    if height > u32::MAX as usize {
        return Err("Invalid image height".to_owned());
    }
    Ok(ImagePayload { width: width as u32, height: height as u32, pixels: repair_transparency(pixels) })
}

/// Repairing changes neither the number of bytes nor any pixel of an
/// image in which some pixel is not transparent.
pub proof fn lemma_repair_keeps_visible(pixels: Seq<u8>)
    ensures
        repaired(pixels).len() == pixels.len(),
        !all_transparent(pixels) ==> repaired(pixels) == pixels,
{
}

/// After the repair of an image without any visible pixel, every coloured
/// pixel is opaque.
pub proof fn lemma_repair_makes_colours_opaque(pixels: Seq<u8>, k: int)
    requires
        all_transparent(pixels),
        0 <= k < pixels.len() / 4,
        has_colour(pixels, k),
    ensures
        channel(repaired(pixels), k, 3) == 255,
        channel(repaired(pixels), k, 0) == channel(pixels, k, 0),
        channel(repaired(pixels), k, 1) == channel(pixels, k, 1),
        channel(repaired(pixels), k, 2) == channel(pixels, k, 2),
{
    assert(!all_black(pixels));
}

} // verus!
