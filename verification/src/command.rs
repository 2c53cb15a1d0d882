//! The commands of the printer's raster protocol and their bytes.

use crate::raster::RasterLine;
use crate::status::PrinterStatus;
use vstd::prelude::*;

verus! {

/// The command dialects that the printer speaks.
#[derive(Debug, Clone, Copy, PartialEq, Eq, Structural)]
pub enum PrinterCommandMode {
    /// ESC/P text commands.
    EscP,
    /// Raster graphics.
    Raster,
    /// Stored templates.
    PtouchTemplate,
}

/// Expanded mode switches.
#[derive(Debug, Clone, Copy, PartialEq, Eq, Structural)]
pub struct PrinterExpandedMode {
    /// Cut after the last page of the job.
    pub cut_at_end: bool,
    /// Print at double vertical density.
    pub high_resolution_printing: bool,
}

/// Mode switches.
#[derive(Debug, Clone, Copy, PartialEq, Eq, Structural)]
pub struct PrinterMode {
    /// Cut automatically after every so many pages.
    pub auto_cut: bool,
}

/// One operation of the protocol, with what it needs to be encoded.
#[derive(Debug, Clone, Copy, PartialEq, Eq)]
pub enum PrinterCommand {
    /// Clears whatever the printer holds of an unfinished job.
    Reset,
    /// Puts the printer into its initial state.
    Initialize,
    /// Asks for a status record.
    StatusInfoRequest,
    /// Selects the dialect of the commands that follow.
    SetCommandMode(PrinterCommandMode),
    /// Declares the media, as a status record reported it, and the number
    /// of raster lines of the job.
    SetPrintInformation(PrinterStatus, u32),
    /// Sets cutting at the end of the job and the vertical density.
    SetExpandedMode(PrinterExpandedMode),
    /// Sets automatic cutting.
    SetMode(PrinterMode),
    /// Sets after how many pages the printer cuts.
    SetPageNumber(u8),
    /// Sets the feed margin in dots.
    SetMarginAmount(u16),
    /// Sends one raster line.
    RasterGraphicsTransfer(RasterLine),
    /// Prints what was sent and feeds the label out.
    PrintWithFeeding,
}

/// Zero bytes that make up a reset.
pub const RESET_LEN: usize = 200;

/// The flags of a print information command: media kind, width and length
/// are given, quality goes before speed, and the printer recovers by
/// itself.
pub const PRINT_INFORMATION_FLAGS: u8 = 0xCE;

/// The byte that selects a dialect.
pub open spec fn command_mode_byte(mode: PrinterCommandMode) -> u8 {
    match mode {
        PrinterCommandMode::EscP => 0x00,
        PrinterCommandMode::Raster => 0x01,
        PrinterCommandMode::PtouchTemplate => 0x03,
    }
}

/// The byte of the expanded mode switches: bit 3 cuts at the end, bit 6
/// prints at high resolution.
pub open spec fn expanded_mode_byte(mode: PrinterExpandedMode) -> u8 {
    ((if mode.cut_at_end { 0x08int } else { 0 })
        + (if mode.high_resolution_printing { 0x40int } else { 0 })) as u8
}

/// The byte of the mode switches: bit 6 cuts automatically.
pub open spec fn mode_byte(mode: PrinterMode) -> u8 {
    if mode.auto_cut { 0x40 } else { 0x00 }
}

/// The four bytes of a line count, lowest first.
pub open spec fn count_bytes(count: u32) -> Seq<u8> {
    seq![
        (count % 256) as u8,
        (count / 256 % 256) as u8,
        (count / 65536 % 256) as u8,
        (count / 16777216) as u8,
    ]
}

/// The bytes of a command.
pub open spec fn encoding(command: PrinterCommand) -> Seq<u8> {
    match command {
        PrinterCommand::Reset => Seq::new(RESET_LEN as nat, |i: int| 0u8),
        PrinterCommand::Initialize => seq![0x1Bu8, 0x40u8],
        PrinterCommand::StatusInfoRequest => seq![0x1Bu8, 0x69u8, 0x53u8],
        PrinterCommand::SetCommandMode(mode) => seq![
            0x1Bu8,
            0x69u8,
            0x61u8,
            command_mode_byte(mode),
        ],
        PrinterCommand::SetPrintInformation(status, count) => seq![
            0x1Bu8,
            0x69u8,
            0x7Au8,
            PRINT_INFORMATION_FLAGS,
            status.media_type,
            status.media_width,
            status.media_length,
        ] + count_bytes(count) + seq![0x00u8, 0x00u8],
        PrinterCommand::SetExpandedMode(mode) => seq![
            0x1Bu8,
            0x69u8,
            0x4Bu8,
            expanded_mode_byte(mode),
        ],
        PrinterCommand::SetMode(mode) => seq![0x1Bu8, 0x69u8, 0x4Du8, mode_byte(mode)],
        PrinterCommand::SetPageNumber(pages) => seq![0x1Bu8, 0x69u8, 0x41u8, pages],
        PrinterCommand::SetMarginAmount(dots) => seq![
            0x1Bu8,
            0x69u8,
            0x64u8,
            (dots % 256) as u8,
            (dots / 256) as u8,
        ],
        PrinterCommand::RasterGraphicsTransfer(line) => seq![0x67u8, 0x00u8, 0x5Au8] + line@,
        PrinterCommand::PrintWithFeeding => seq![0x1Au8],
    }
}

/// The bytes of a sequence of commands, one after the other.
pub open spec fn encoding_of_all(commands: Seq<PrinterCommand>) -> Seq<u8>
    decreases commands.len(),
{
    if commands.len() == 0 {
        Seq::empty()
    } else {
        encoding_of_all(commands.drop_last()) + encoding(commands.last())
    }
}

/// Encodes a command into the bytes that go to the printer.
pub fn encode(command: &PrinterCommand) -> (bytes: Vec<u8>)
    ensures
        bytes@ == encoding(*command),
{
    let mut bytes: Vec<u8> = Vec::new();
    match command {
        PrinterCommand::Reset => {
            let mut i: usize = 0;
            while i < RESET_LEN
                invariant
                    i <= RESET_LEN,
                    bytes@.len() == i,
                    forall|j: int| 0 <= j < i ==> bytes@[j] == 0u8,
                decreases RESET_LEN - i,
            {
                bytes.push(0u8);
                i += 1;
            }
        },
        PrinterCommand::Initialize => {
            bytes.push(0x1B);
            bytes.push(0x40);
        },
        PrinterCommand::StatusInfoRequest => {
            bytes.push(0x1B);
            bytes.push(0x69);
            bytes.push(0x53);
        },
        PrinterCommand::SetCommandMode(mode) => {
            bytes.push(0x1B);
            bytes.push(0x69);
            bytes.push(0x61);
            bytes.push(
                match mode {
                    PrinterCommandMode::EscP => 0x00,
                    PrinterCommandMode::Raster => 0x01,
                    PrinterCommandMode::PtouchTemplate => 0x03,
                },
            );
        },
        PrinterCommand::SetPrintInformation(status, count) => {
            bytes.push(0x1B);
            bytes.push(0x69);
            bytes.push(0x7A);
            bytes.push(PRINT_INFORMATION_FLAGS);
            bytes.push(status.media_type);
            bytes.push(status.media_width);
            bytes.push(status.media_length);
            bytes.push((*count % 256) as u8);
            bytes.push((*count / 256 % 256) as u8);
            bytes.push((*count / 65536 % 256) as u8);
            bytes.push((*count / 16777216) as u8);
            bytes.push(0x00);
            bytes.push(0x00);
        },
        PrinterCommand::SetExpandedMode(mode) => {
            let cut: u8 = if mode.cut_at_end { 0x08 } else { 0x00 };
            let density: u8 = if mode.high_resolution_printing { 0x40 } else { 0x00 };
            bytes.push(0x1B);
            bytes.push(0x69);
            bytes.push(0x4B);
            bytes.push(cut + density);
        },
        PrinterCommand::SetMode(mode) => {
            bytes.push(0x1B);
            bytes.push(0x69);
            bytes.push(0x4D);
            bytes.push(if mode.auto_cut { 0x40 } else { 0x00 });
        },
        PrinterCommand::SetPageNumber(pages) => {
            bytes.push(0x1B);
            bytes.push(0x69);
            bytes.push(0x41);
            bytes.push(*pages);
        },
        PrinterCommand::SetMarginAmount(dots) => {
            bytes.push(0x1B);
            bytes.push(0x69);
            bytes.push(0x64);
            bytes.push((*dots % 256) as u8);
            bytes.push((*dots / 256) as u8);
        },
        PrinterCommand::RasterGraphicsTransfer(line) => {
            bytes.push(0x67);
            bytes.push(0x00);
            bytes.push(0x5A);
            let mut i: usize = 0;
            while i < 90
                invariant
                    i <= 90,
                    bytes@.len() == 3 + i,
                    bytes@[0] == 0x67u8,
                    bytes@[1] == 0x00u8,
                    bytes@[2] == 0x5Au8,
                    forall|j: int| 0 <= j < i ==> bytes@[3 + j] == line@[j],
                decreases 90 - i,
            {
                bytes.push(line[i]);
                i += 1;
            }
        },
        PrinterCommand::PrintWithFeeding => {
            bytes.push(0x1A);
        },
    }
    assert(bytes@ =~= encoding(*command));
    bytes
}

} // verus!
