//! The status record that the printer sends back.
//!
//! A record is 32 bytes. This module reads the fields that a job needs from
//! their fixed places and leaves the rest.

use crate::error::PrinterBotError;
use vstd::prelude::*;

verus! {

/// Bytes in a status record.
pub const STATUS_LEN: usize = 32;

/// The value of the status type field that reports an error.
pub const STATUS_TYPE_ERROR: u8 = 0x02;

/// The value of the phase type field while the printer prints.
pub const PHASE_TYPE_PRINTING: u8 = 0x01;

/// What the printer is doing.
#[derive(Debug, Clone, Copy, PartialEq, Eq, Structural)]
pub enum Phase {
    /// Waiting to receive.
    Ready,
    /// Printing.
    Printing,
    /// Stopped on a fault.
    Error,
}

/// The fields of a status record.
#[derive(Debug, Clone, Copy, PartialEq, Eq, Structural)]
pub struct PrinterStatus {
    /// Model code (byte 4).
    pub model: u8,
    /// First set of fault flags (byte 8): no media, end of media, cutter
    /// jam, printer in use, fan fault and the like.
    pub error_info_1: u8,
    /// Second set of fault flags (byte 9): cover open, overheating, media
    /// cannot be fed, system error and the like.
    pub error_info_2: u8,
    /// Media width in millimetres (byte 10).
    pub media_width: u8,
    /// Media kind (byte 11): continuous tape or die-cut labels.
    pub media_type: u8,
    /// Media length in millimetres (byte 17); zero for continuous tape.
    pub media_length: u8,
    /// Why the record was sent (byte 18).
    pub status_type: u8,
    /// Phase type (byte 19).
    pub phase_type: u8,
    /// Phase number (bytes 20 and 21, high byte first).
    pub phase_number: u16,
    /// Notification number (byte 22).
    pub notification: u8,
}

impl PrinterStatus {
    /// Whether the record reports a fault: a fault flag is set, or the
    /// record was sent because an error occurred.
    pub open spec fn spec_has_error(self) -> bool {
        self.error_info_1 != 0 || self.error_info_2 != 0 || self.status_type == STATUS_TYPE_ERROR
    }

    /// Whether the record reports a fault.
    #[verifier::when_used_as_spec(spec_has_error)]
    pub fn has_error(self) -> (fault: bool)
        ensures
            fault == self.spec_has_error(),
    {
        self.error_info_1 != 0 || self.error_info_2 != 0 || self.status_type == STATUS_TYPE_ERROR
    }

    /// The phase that the record shows.
    pub open spec fn spec_phase(self) -> Phase {
        if self.spec_has_error() {
            Phase::Error
        } else if self.phase_type == PHASE_TYPE_PRINTING {
            Phase::Printing
        } else {
            Phase::Ready
        }
    }

    /// The phase that the record shows: `Error` where it reports a fault,
    /// else `Printing` or `Ready` by its phase type.
    #[verifier::when_used_as_spec(spec_phase)]
    pub fn phase(self) -> (phase: Phase)
        ensures
            phase == self.spec_phase(),
    {
        if self.has_error() {
            Phase::Error
        } else if self.phase_type == PHASE_TYPE_PRINTING {
            Phase::Printing
        } else {
            Phase::Ready
        }
    }
}

/// The record that the first 32 bytes of a reply hold.
pub open spec fn status_of(bytes: Seq<u8>) -> PrinterStatus {
    PrinterStatus {
        model: bytes[4],
        error_info_1: bytes[8],
        error_info_2: bytes[9],
        media_width: bytes[10],
        media_type: bytes[11],
        media_length: bytes[17],
        status_type: bytes[18],
        phase_type: bytes[19],
        phase_number: (bytes[20] * 256 + bytes[21]) as u16,
        notification: bytes[22],
    }
}

/// What decoding a reply gives: `ProtocolTruncated` where it is shorter
/// than a record, else the record.
pub open spec fn decoded_status(bytes: Seq<u8>) -> Result<PrinterStatus, PrinterBotError> {
    if bytes.len() < STATUS_LEN {
        Err(PrinterBotError::ProtocolTruncated)
    } else {
        Ok(status_of(bytes))
    }
}

/// Decodes a status reply. A reply shorter than 32 bytes is
/// `ProtocolTruncated`; nothing is padded.
pub fn decode_status(bytes: &[u8]) -> (status: Result<PrinterStatus, PrinterBotError>)
    ensures
        status == decoded_status(bytes@),
        status is Err <==> bytes@.len() < STATUS_LEN,
{
    if bytes.len() < STATUS_LEN {
        return Err(PrinterBotError::ProtocolTruncated);
    }
    Ok(
        PrinterStatus {
            model: bytes[4],
            error_info_1: bytes[8],
            error_info_2: bytes[9],
            media_width: bytes[10],
            media_type: bytes[11],
            media_length: bytes[17],
            status_type: bytes[18],
            phase_type: bytes[19],
            phase_number: (bytes[20] as u16) * 256 + (bytes[21] as u16),
            notification: bytes[22],
        },
    )
}

} // verus!
