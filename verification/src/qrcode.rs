//! QR codes for handing the address of the server to another device.
//!
//! Drawing a code is the work of the `qrcode` crate, whose results are taken
//! on trust and named. Reading a code from a picture is the work of a
//! decoder that the caller runs; this module says what a scan answers for
//! whatever the decoder yielded.

use vstd::prelude::*;
use ::qrcode::render::unicode::Dense1x2;

verus! {

/// Smallest side of a code drawn as SVG, in pixels.
pub const SVG_MIN_SIDE: u32 = 200;

/// The widest code has 177 modules and a quiet zone of 4 modules on each
/// side.
pub const MAX_MODULES_ACROSS: u32 = 185;

/// Why no text was read from a picture.
#[derive(Clone, Copy, Debug, PartialEq, Eq, Structural)]
pub enum ScanError {
    /// The bytes are not a picture in a known format.
    Undecodable,
    /// The picture holds no code with a text in it.
    NoCode,
}

/// A picture of a code: `width` by `height` pixels, rows from the top, three
/// bytes (red, green, blue) for each pixel.
#[derive(Debug)]
pub struct RgbImage {
    pub width: u32,
    pub height: u32,
    pub pixels: Vec<u8>,
}

impl RgbImage {
    /// Whether the picture holds three bytes for each of its pixels.
    pub open spec fn well_formed(&self) -> bool {
        self.pixels@.len() == 3 * self.width * self.height
    }
}

/// Whether every pixel is black or white: each byte is 0 or 255 and equals
/// the first byte of its pixel.
pub open spec fn black_or_white(pixels: Seq<u8>) -> bool {
    forall|i: int|
        0 <= i < pixels.len() ==> (#[trigger] pixels[i] == 0 || pixels[i] == 255) && pixels[i]
            == pixels[i - i % 3]
}

/// The SVG document that the `qrcode` crate draws for `data` at the medium
/// level of error correction, each side at least as long as asked; `None`
/// where `data` is too long for a code.
pub uninterp spec fn qr_svg(data: Seq<char>, min_width: u32, min_height: u32) -> Option<Seq<char>>;

/// The text that the `qrcode` crate draws for `data` with two modules to a
/// character; the flags say whether dark and light modules are drawn as set
/// half blocks. `None` where `data` is too long for a code.
pub uninterp spec fn qr_unicode(data: Seq<char>, dark_set: bool, light_set: bool) -> Option<
    Seq<char>,
>;

/// Width, height and pixels of the picture that the `qrcode` crate draws for
/// `data`, black on white, each side at least `min_side` pixels long; `None`
/// where `data` is too long for a code.
pub uninterp spec fn qr_rgb(data: Seq<char>, min_side: u32) -> Option<(u32, u32, Seq<u8>)>;

/// Whether a picture with sides of at least `min_side` pixels can be laid
/// out: the side, rounded up to whole modules, fits `u32`, and its three
/// bytes to the pixel fit a vector.
pub open spec fn side_fits(min_side: u32) -> bool {
    &&& min_side + MAX_MODULES_ACROSS <= u32::MAX
    &&& 3 * (min_side + MAX_MODULES_ACROSS) * (min_side + MAX_MODULES_ACROSS) <= isize::MAX
}

/// Calls `QrCode::new`, then `render::<svg::Color>`, `min_dimensions` and
/// `build` of the `qrcode` crate. Encoding and drawing read nothing but their
/// arguments, so the result is named after them; the contract claims no more
/// than that. `QrCode::new` returns an error where the data is too long, which
/// comes back as `None`. `min_dimensions` adds the width of the code in
/// modules to the side it is given, in `u32`; the `requires` keeps that sum in
/// range.
#[verifier::external_body]
fn render_svg(data: &str, min_width: u32, min_height: u32) -> (r: Option<String>)
    requires
        min_width + MAX_MODULES_ACROSS <= u32::MAX,
        min_height + MAX_MODULES_ACROSS <= u32::MAX,
    ensures
        r.deep_view() == qr_svg(data@, min_width, min_height),
{
    match ::qrcode::QrCode::new(data) {
        Ok(code) => Some(
            code.render::<::qrcode::render::svg::Color>().min_dimensions(
                min_width,
                min_height,
            ).build(),
        ),
        Err(_) => None,
    }
}

/// Calls `QrCode::new`, then `render::<unicode::Dense1x2>`, `dark_color`,
/// `light_color` and `build` of the `qrcode` crate. The flags pick the
/// renderer's `Dark` (true) or `Light` (false) pixel for each kind of module.
/// Encoding and drawing read nothing but their arguments, so the result is
/// named after them; the contract claims no more than that.
#[verifier::external_body]
fn render_unicode(data: &str, dark_set: bool, light_set: bool) -> (r: Option<String>)
    ensures
        r.deep_view() == qr_unicode(data@, dark_set, light_set),
{
    let dark = match dark_set {
        true => Dense1x2::Dark,
        false => Dense1x2::Light,
    };
    let light = match light_set {
        true => Dense1x2::Dark,
        false => Dense1x2::Light,
    };
    match ::qrcode::QrCode::new(data) {
        Ok(code) => Some(code.render::<Dense1x2>().dark_color(dark).light_color(light).build()),
        Err(_) => None,
    }
}

/// Calls `QrCode::new`, then `render::<Rgb<u8>>`, `min_dimensions` and
/// `build` of the `qrcode` crate, and takes the `ImageBuffer` of the `image`
/// crate apart with `width`, `height` and `into_raw`. Encoding and drawing
/// read nothing but their arguments, so the result is named after them. The
/// buffer is made by `ImageBuffer::from_pixel`, which allocates three bytes
/// for each pixel and no more; the contract states that length. It states
/// three more things that the source of the renderer shows: `min_dimensions`
/// rounds the side up to whole modules, so neither side is shorter than
/// asked; the code is square and both sides are asked for alike, so the
/// picture is square; and the buffer is filled with the default light pixel,
/// all bytes 255, and drawn on with the default dark pixel, all bytes 0. The
/// `requires` keeps the arithmetic of `min_dimensions` and the length of the
/// buffer in range, beyond which the two crates panic.
#[verifier::external_body]
fn render_rgb(data: &str, min_side: u32) -> (r: Option<(u32, u32, Vec<u8>)>)
    requires
        side_fits(min_side),
    ensures
        match r {
            Some((width, height, pixels)) => {
                &&& qr_rgb(data@, min_side) == Some((width, height, pixels@))
                &&& pixels@.len() == 3 * width * height
                &&& width == height
                &&& width >= min_side
                &&& black_or_white(pixels@)
            },
            None => qr_rgb(data@, min_side) is None,
        },
{
    match ::qrcode::QrCode::new(data) {
        Ok(code) => {
            let picture = code.render::<::image::Rgb<u8>>().min_dimensions(
                min_side,
                min_side,
            ).build();
            Some((picture.width(), picture.height(), picture.into_raw()))
        },
        Err(_) => None,
    }
}

/// The address as an SVG document with sides of at least [`SVG_MIN_SIDE`]
/// pixels.
pub fn generate_svg(url: &str) -> (svg: String)
    requires
        qr_svg(url@, SVG_MIN_SIDE, SVG_MIN_SIDE) is Some,
    ensures
        Some(svg@) == qr_svg(url@, SVG_MIN_SIDE, SVG_MIN_SIDE),
{
    render_svg(url, SVG_MIN_SIDE, SVG_MIN_SIDE).unwrap()
}

/// [`generate_svg`] for any address: `None` where the address is too long for
/// a code.
pub fn try_generate_svg(url: &str) -> (svg: Option<String>)
    ensures
        svg.deep_view() == qr_svg(url@, SVG_MIN_SIDE, SVG_MIN_SIDE),
{
    if render_svg(url, SVG_MIN_SIDE, SVG_MIN_SIDE).is_some() {
        Some(generate_svg(url))
    } else {
        None
    }
}

/// The address as a square picture, black on white, with sides of at least
/// `size` pixels.
pub fn generate_png(url: &str, size: u32) -> (picture: RgbImage)
    requires
        side_fits(size),
        qr_rgb(url@, size) is Some,
    ensures
        Some((picture.width, picture.height, picture.pixels@)) == qr_rgb(url@, size),
        picture.well_formed(),
        picture.width == picture.height,
        picture.width >= size,
        black_or_white(picture.pixels@),
{
    let (width, height, pixels) = render_rgb(url, size).unwrap();
    RgbImage { width, height, pixels }
}

/// [`generate_png`] for any address and size: `None` where the address is too
/// long for a code or the picture too large to lay out.
pub fn try_generate_png(url: &str, size: u32) -> (picture: Option<RgbImage>)
    ensures
        match picture {
            Some(p) => {
                &&& side_fits(size)
                &&& Some((p.width, p.height, p.pixels@)) == qr_rgb(url@, size)
                &&& p.well_formed()
                &&& p.width == p.height
                &&& p.width >= size
                &&& black_or_white(p.pixels@)
            },
            None => !side_fits(size) || qr_rgb(url@, size) is None,
        },
{
    if !fits_side(size) {
        return None;
    }
    if render_rgb(url, size).is_some() {
        Some(generate_png(url, size))
    } else {
        None
    }
}

/// Whether a picture with sides of at least `min_side` pixels can be laid
/// out.
pub fn fits_side(min_side: u32) -> (r: bool)
    ensures
        r == side_fits(min_side),
{
    if min_side > u32::MAX - MAX_MODULES_ACROSS {
        return false;
    }
    let side: u128 = (min_side + MAX_MODULES_ACROSS) as u128;
    assert(side * side <= 0xffff_ffff * 0xffff_ffff) by (nonlinear_arith)
        requires
            side <= 0xffff_ffff,
    ;
    let area: u128 = side * side;
    assert(3 * side * side == 3 * area) by (nonlinear_arith)
        requires
            area == side * side,
    ;
    3 * area <= isize::MAX as u128
}

/// The address for a terminal, two modules to a character. The colours are
/// swapped, for terminals that write light on dark: a dark module is left
/// blank and a light one is set.
pub fn generate_terminal(url: &str) -> (text: String)
    requires
        qr_unicode(url@, false, true) is Some,
    ensures
        Some(text@) == qr_unicode(url@, false, true),
{
    render_unicode(url, false, true).unwrap()
}

/// [`generate_terminal`] for any address: `None` where the address is too
/// long for a code.
pub fn try_generate_terminal(url: &str) -> (text: Option<String>)
    ensures
        text.deep_view() == qr_unicode(url@, false, true),
{
    if render_unicode(url, false, true).is_some() {
        Some(generate_terminal(url))
    } else {
        None
    }
}

/// The first text that is not empty among the codes that were located, where
/// `None` stands for a code that could not be read.
pub open spec fn first_text(found: Seq<Option<Seq<char>>>) -> Option<Seq<char>>
    decreases found.len(),
{
    if found.len() == 0 {
        None
    } else if found[0] is Some && found[0]->Some_0.len() > 0 {
        found[0]
    } else {
        first_text(found.skip(1))
    }
}

/// The texts of a list of located codes.
pub open spec fn found_view(found: Seq<Option<String>>) -> Seq<Option<Seq<char>>> {
    found.map_values(|code: Option<String>| code.deep_view())
}

/// Picks the text to report from the codes located in a picture: the first
/// that was read and is not empty. Without one the picture counts as holding
/// no code.
pub fn pick_code(found: Vec<Option<String>>) -> (r: Result<String, ScanError>)
    ensures
        match r {
            Ok(text) => first_text(found_view(found@)) == Some(text@),
            Err(e) => first_text(found_view(found@)) is None && e == ScanError::NoCode,
        },
{
    let ghost all = found_view(found@);
    let mut i: usize = 0;
    assert(all.skip(0) =~= all);
    while i < found.len()
        invariant
            i <= found.len(),
            all == found_view(found@),
            first_text(all) == first_text(all.skip(i as int)),
        decreases found.len() - i,
    {
        proof {
            let rest = all.skip(i as int);
            assert(rest[0] == found@[i as int].deep_view());
            assert(rest.skip(1) =~= all.skip(i as int + 1));
        }
        match &found[i] {
            Some(text) => {
                if !text.as_str().is_empty() {
                    return Ok(text.clone());
                }
            },
            None => {},
        }
        i += 1;
    }
    Err(ScanError::NoCode)
}

/// The text that is picked is one of the list, and not empty.
pub proof fn first_text_is_readable(found: Seq<Option<Seq<char>>>)
    ensures
        first_text(found) matches Some(text) ==> text.len() > 0 && found.contains(Some(text)),
    decreases found.len(),
{
    if found.len() > 0 {
        if found[0] is Some && found[0]->Some_0.len() > 0 {
        } else {
            first_text_is_readable(found.skip(1));
            if first_text(found) is Some {
                let text = first_text(found)->Some_0;
                let k = choose|k: int| 0 <= k < found.skip(1).len() && found.skip(1)[k] == Some(text);
                assert(found[k + 1] == Some(text));
            }
        }
    }
}

/// What a scan answers, given what decoding yielded: `None` where the bytes
/// were no picture, else the codes located in the picture, where `None`
/// stands for a code that could not be read. A picture that was decoded
/// answers with its first text that is not empty, and counts as holding no
/// code without one.
pub open spec fn scan_outcome(located: Option<Seq<Option<Seq<char>>>>) -> Result<
    Seq<char>,
    ScanError,
> {
    match located {
        None => Err(ScanError::Undecodable),
        Some(found) => match first_text(found) {
            Some(text) => Ok(text),
            None => Err(ScanError::NoCode),
        },
    }
}

/// The mathematical value of what decoding yielded.
pub open spec fn located_view(located: Option<Vec<Option<String>>>) -> Option<
    Seq<Option<Seq<char>>>,
> {
    match located {
        None => None,
        Some(found) => Some(found_view(found@)),
    }
}

/// Turns what decoding yielded into the answer of a scan: `located` is `None`
/// where the bytes were no picture, else the codes located in the picture.
/// A text that comes back is never empty.
pub fn conclude_scan(located: Option<Vec<Option<String>>>) -> (r: Result<String, ScanError>)
    ensures
        match r {
            Ok(text) => scan_outcome(located_view(located)) == Ok::<Seq<char>, ScanError>(text@),
            Err(e) => scan_outcome(located_view(located)) == Err::<Seq<char>, ScanError>(e),
        },
        r matches Ok(text) ==> text@.len() > 0,
{
    proof {
        scan_outcome_is_readable(located_view(located));
    }
    match located {
        Some(found) => pick_code(found),
        None => Err(ScanError::Undecodable),
    }
}

/// A scan that answers with a text answers with one that is not empty.
pub proof fn scan_outcome_is_readable(located: Option<Seq<Option<Seq<char>>>>)
    ensures
        scan_outcome(located) matches Ok(text) ==> text.len() > 0,
{
    if let Some(found) = located {
        first_text_is_readable(found);
    }
}

} // verus!
