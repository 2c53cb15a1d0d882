//! QR codes: the picture of a text, as a PNG file held in memory.
//!
//! The code is made and drawn by the `qrcode-generator` crate.

use crate::error::PrinterBotError;
use vstd::prelude::*;

verus! {

/// The error of the `qrcode-generator` crate, carried through unread.
#[verifier::external_type_specification]
#[verifier::external_body]
pub struct ExQRCodeError(qrcode_generator::QRCodeError);

/// How much of a code may be lost and still be read.
#[derive(Debug, Clone, Copy, PartialEq, Eq, Structural)]
pub enum ErrorCorrection {
    /// About 7 percent.
    Low,
    /// About 15 percent.
    Medium,
    /// About 25 percent.
    Quartile,
    /// About 30 percent.
    High,
}

/// The error correction of the codes that are printed.
pub open spec fn spec_print_correction() -> ErrorCorrection {
    ErrorCorrection::Low
}

/// The error correction of the codes that are printed.
#[verifier::when_used_as_spec(spec_print_correction)]
pub fn print_correction() -> (level: ErrorCorrection)
    ensures
        level == spec_print_correction(),
{
    ErrorCorrection::Low
}

/// Pixels along each side of the picture of a code.
pub const QR_SIDE: usize = 1024;

/// The four bytes that a PNG file begins with.
pub open spec fn png_magic() -> Seq<u8> {
    seq![137u8, 80u8, 78u8, 71u8]
}

/// Whether bytes begin as a PNG file does.
pub open spec fn begins_as_png(bytes: Seq<u8>) -> bool {
    bytes.len() >= 4 && bytes.take(4) == png_magic()
}

/// The PNG file that `qrcode_generator::to_png_to_vec` makes of a text at
/// an error correction level and a side in pixels, or `None` where it
/// reports an error.
pub uninterp spec fn qr_png(content: Seq<char>, level: ErrorCorrection, side: usize) -> Option<
    Seq<u8>,
>;

/// Calls `qrcode_generator::to_png_to_vec`. Trusted: what it makes begins
/// as a PNG file does, and the result is a function of the text, the level
/// and the side alone. The bound on the side keeps the picture within what
/// the crate can allocate.
#[verifier::external_body]
fn to_png(content: &str, level: ErrorCorrection, side: usize) -> (made: Result<
    Vec<u8>,
    qrcode_generator::QRCodeError,
>)
    requires
        side <= 0xFFFF,
    ensures
        match made {
            Ok(png) => qr_png(content@, level, side) == Some(png@) && begins_as_png(png@),
            Err(_) => qr_png(content@, level, side) is None,
        },
{
    let ecc = match level {
        ErrorCorrection::Low => qrcode_generator::QrCodeEcc::Low,
        ErrorCorrection::Medium => qrcode_generator::QrCodeEcc::Medium,
        ErrorCorrection::Quartile => qrcode_generator::QrCodeEcc::Quartile,
        ErrorCorrection::High => qrcode_generator::QrCodeEcc::High,
    };
    qrcode_generator::to_png_to_vec(content, ecc, side)
}

/// Says whether bytes begin as a PNG file does: with 137 and the letters
/// `PNG`.
pub fn has_png_signature(bytes: &[u8]) -> (yes: bool)
    ensures
        yes == begins_as_png(bytes@),
{
    if bytes.len() < 4 {
        return false;
    }
    let yes = bytes[0] == 137 && bytes[1] == 80 && bytes[2] == 78 && bytes[3] == 71;
    assert(yes == (bytes@.take(4) =~= png_magic()));
    yes
}

/// Makes the QR code of a text as a PNG of 1024 by 1024 pixels, with the
/// lowest error correction. Fails with `QrCodeGen` where the text does not
/// fit a code.
pub fn generate_qr_code(content: &str) -> (made: Result<Vec<u8>, PrinterBotError>)
    ensures
        match made {
            Ok(png) => qr_png(content@, print_correction(), QR_SIDE) == Some(png@)
                && begins_as_png(png@),
            Err(e) => e == PrinterBotError::QrCodeGen && qr_png(
                content@,
                print_correction(),
                QR_SIDE,
            ) is None,
        },
{
    match to_png(content, print_correction(), QR_SIDE) {
        Ok(png) => Ok(png),
        Err(_) => Err(PrinterBotError::QrCodeGen),
    }
}

} // verus!
