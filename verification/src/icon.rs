//! Icon resources: how they are named and what pixels they hold.
//!
//! There is one icon per level from 0 to 100, stored as `0.png` to
//! `100.png`. The pixels are decoded by the `image` crate; this module checks
//! what comes back before it is handed to the presentation layer.
use vstd::prelude::*;
use vstd::string::StringExecFns;
use crate::display::{decimal, icon_for, icon_selector, push_decimal};
use crate::reading::BatteryReading;

verus! {

/// The pixels of an icon: `height` rows of `width` pixels, each of four
/// bytes in the order red, green, blue, alpha.
#[derive(Clone, Debug, PartialEq, Eq)]
pub struct IconImage {
    pub rgba: Vec<u8>,
    pub width: u32,
    pub height: u32,
}

/// Why a resource is no icon.
#[derive(Clone, Copy, Debug, PartialEq, Eq, Structural)]
pub enum IconError {
    /// The bytes are no picture in a format that the decoder knows.
    Undecodable,
    /// The picture does not hold four bytes for each of its pixels, or
    /// has more pixels than a `u32` counts.
    SizeMismatch,
}

impl View for IconImage {
    type V = (Seq<u8>, u32, u32);

    open spec fn view(&self) -> (Seq<u8>, u32, u32) {
        (self.rgba@, self.width, self.height)
    }
}

impl IconImage {
    /// The buffer holds exactly four bytes per pixel, and the number of
    /// pixels fits in a `u32`.
    pub open spec fn well_formed(&self) -> bool {
        consistent(self.rgba@, self.width, self.height)
    }
}

/// `rgba` holds exactly four bytes for each of `width * height` pixels, and
/// that number of pixels fits in a `u32`.
pub open spec fn consistent(rgba: Seq<u8>, width: u32, height: u32) -> bool {
    width * height <= u32::MAX && rgba.len() == 4 * (width * height)
}

/// Name of the resource that holds the icon of `level`: the decimal level
/// and the extension `.png`, where a level above 100 takes the icon of 0.
pub open spec fn icon_name(level: u8) -> Seq<char> {
    decimal(icon_for(BatteryReading::Percent(level)) as nat) + ".png"@
}

/// The icon that a decoded picture makes, if it makes one.
pub open spec fn icon_of(decoded: Option<(Seq<u8>, u32, u32)>) -> Result<
    (Seq<u8>, u32, u32),
    IconError,
> {
    match decoded {
        None => Err(IconError::Undecodable),
        Some((rgba, width, height)) => if consistent(rgba, width, height) {
            Ok((rgba, width, height))
        } else {
            Err(IconError::SizeMismatch)
        },
    }
}

/// An outcome with the icon replaced by its view.
pub open spec fn outcome_view(outcome: Result<IconImage, IconError>) -> Result<
    (Seq<u8>, u32, u32),
    IconError,
> {
    match outcome {
        Ok(icon) => Ok(icon@),
        Err(e) => Err(e),
    }
}

/// What the `image` crate makes of the file contents `bytes`: the RGBA
/// bytes, the width and the height of the picture, or `None` where it
/// does not decode them.
pub uninterp spec fn decoded_rgba(bytes: Seq<u8>) -> Option<(Seq<u8>, u32, u32)>;

/// Decodes a picture held in memory with `image::io::Reader`: the format
/// is guessed from the content (`with_guessed_format`), the picture is
/// decoded (`decode`) and converted to eight-bit RGBA
/// (`DynamicImage::to_rgba8`), with `DynamicImage::width` and `height` for
/// its dimensions.
///
/// Trusted: the result is a function of `bytes` alone, and it is `None`
/// where the crate reports an error. Nothing is claimed of the pixels or of
/// the dimensions.
#[verifier::external_body]
fn decode_rgba(bytes: &[u8]) -> (decoded: Option<(Vec<u8>, u32, u32)>)
    ensures
        decoded_rgba(bytes@) == match decoded {
            Some((rgba, width, height)) => Some((rgba@, width, height)),
            None => None,
        },
{
    let reader = image::io::Reader::new(std::io::Cursor::new(bytes)).with_guessed_format().ok()?;
    let picture = reader.decode().ok()?;
    Some((picture.to_rgba8().to_vec(), picture.width(), picture.height()))
}

/// Name of the resource that holds the icon of `level`.
pub fn icon_file_name(level: u8) -> (name: String)
    ensures
        name@ == icon_name(level),
{
    let mut name = String::new();
    push_decimal(&mut name, icon_selector(BatteryReading::Percent(level)));
    name.append(".png");
    name
}

/// Tells whether `len` bytes are four for each of `width * height` pixels,
/// with at most `u32::MAX` pixels.
pub fn is_consistent(len: usize, width: u32, height: u32) -> (ok: bool)
    ensures
        ok == (width * height <= u32::MAX && len == 4 * (width * height)),
{
    assert(width * height <= 0xFFFF_FFFF * 0xFFFF_FFFF) by (nonlinear_arith)
        requires
            0 <= width <= 0xFFFF_FFFF,
            0 <= height <= 0xFFFF_FFFF,
    ;
    let pixels: u64 = (width as u64) * (height as u64);
    pixels <= 0xFFFF_FFFF && (len as u64) == 4 * pixels
}

/// Makes an icon of a decoded picture: accepts it where the buffer holds
/// four bytes per pixel, and says why not otherwise.
pub fn icon_from_decoded(decoded: Option<(Vec<u8>, u32, u32)>) -> (outcome: Result<
    IconImage,
    IconError,
>)
    ensures
        outcome_view(outcome) == icon_of(
            match decoded {
                Some((rgba, width, height)) => Some((rgba@, width, height)),
                None => None,
            },
        ),
        outcome matches Ok(icon) ==> icon.well_formed(),
{
    match decoded {
        None => Err(IconError::Undecodable),
        Some((rgba, width, height)) => {
            if is_consistent(rgba.len(), width, height) {
                Ok(IconImage { rgba, width, height })
            } else {
                Err(IconError::SizeMismatch)
            }
        },
    }
}

/// Decodes the contents of an icon resource.
pub fn load_icon(bytes: &[u8]) -> (outcome: Result<IconImage, IconError>)
    ensures
        outcome_view(outcome) == icon_of(decoded_rgba(bytes@)),
        outcome matches Ok(icon) ==> icon.well_formed(),
{
    icon_from_decoded(decode_rgba(bytes))
}

} // verus!
