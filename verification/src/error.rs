//! The failures this library reports.

use vstd::prelude::*;

verus! {

/// Why an image could not be rasterised or a print job did not complete.
#[derive(Debug, Clone, Copy, PartialEq, Eq, Structural)]
pub enum PrinterBotError {
    /// The image is more than one and a half times as tall as it is wide.
    InvalidImage,
    /// The bytes are not an image that can be decoded.
    DecodeFailure,
    /// The device could not be opened, a transfer failed, or the printer
    /// reported a fault in a status record.
    DeviceFailure,
    /// The worker that ran the job ended abnormally.
    WorkerFailure,
    /// A status reply was shorter than a status record.
    ProtocolTruncated,
    /// A QR code could not be made of the text.
    QrCodeGen,
}

impl PrinterBotError {
    /// The text of each failure.
    pub open spec fn message_text(self) -> Seq<char> {
        match self {
            PrinterBotError::InvalidImage => "invalid image"@,
            PrinterBotError::DecodeFailure => "image error"@,
            PrinterBotError::DeviceFailure => "io error"@,
            PrinterBotError::WorkerFailure => "thread panic"@,
            PrinterBotError::ProtocolTruncated => "status reply truncated"@,
            PrinterBotError::QrCodeGen => "qrcode generator fail"@,
        }
    }

    /// A short description of the failure, for logs and operator messages.
    pub fn message(&self) -> (text: String)
        ensures
            text@ == self.message_text(),
    {
        match self {
            PrinterBotError::InvalidImage => "invalid image".to_owned(),
            PrinterBotError::DecodeFailure => "image error".to_owned(),
            PrinterBotError::DeviceFailure => "io error".to_owned(),
            PrinterBotError::WorkerFailure => "thread panic".to_owned(),
            PrinterBotError::ProtocolTruncated => "status reply truncated".to_owned(),
            PrinterBotError::QrCodeGen => "qrcode generator fail".to_owned(),
        }
    }

    /// Whether the sender of the image can mend the failure by sending
    /// another image.
    pub fn is_user_correctable(&self) -> (yes: bool)
        ensures
            yes == (*self == PrinterBotError::InvalidImage),
    {
        match self {
            PrinterBotError::InvalidImage => true,
            _ => false,
        }
    }
}

} // verus!
