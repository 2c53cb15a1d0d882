//! The printer session: the order of commands and status reads of one print
//! job, as a state machine.
//!
//! The session does no I/O. It says what is to be done next (`Action`) and
//! is told how that went (`Event`). Whoever owns the device performs the
//! actions: open it, send a command, read a status reply, close it.

use crate::command::{PrinterCommand, PrinterCommandMode, PrinterExpandedMode, PrinterMode};
use crate::error::PrinterBotError;
use crate::raster::RasterLine;
use crate::render::Settings;
use crate::status::{decode_status, decoded_status, PrinterStatus};
use vstd::prelude::*;

verus! {

/// Commands before the first raster line: reset, initialise, status
/// request, and six that configure the job.
pub const COMMANDS_BEFORE_LINES: u64 = 9;

/// Commands of a job besides its raster lines: the nine before them, print
/// with feeding, and three status requests.
pub const COMMANDS_BESIDE_LINES: u64 = 13;

/// The milestones of a job.
#[derive(Debug, Clone, Copy, PartialEq, Eq, Structural)]
pub enum SessionState {
    /// The device is not open: the job has not begun or is over.
    Closed,
    /// The device is open.
    Opened,
    /// Reset and initialise have been sent.
    Reset,
    /// The printer's status is known.
    Ready,
    /// The job has been configured.
    Configuring,
    /// The raster lines have been sent.
    Streaming,
    /// Printing has been started and the printer's last status replies
    /// have been looked at.
    Finalizing,
}

/// What a session waits for.
#[derive(Debug, Clone, Copy, PartialEq, Eq, Structural)]
pub enum Stage {
    /// For the device to be opened.
    Opening,
    /// For a command to be sent.
    Sending,
    /// For a status reply.
    Reading,
    /// For the device to be closed.
    Closing,
    /// For nothing: the job is over.
    Finished,
}

/// What is to be done next.
#[derive(Debug, Clone, Copy, PartialEq, Eq)]
pub enum Action {
    /// Open the device for this job alone.
    Open,
    /// Send the bytes of this command.
    Send(PrinterCommand),
    /// Read a status reply of 32 bytes, waiting no longer than a bounded
    /// time.
    ReadStatus,
    /// Close the device.
    Close,
    /// Nothing more: the job ended like this.
    Finish(Result<(), PrinterBotError>),
}

/// How the last action went.
#[derive(Debug, PartialEq, Eq)]
pub enum Event {
    /// The device was opened, the command was sent, or the device was
    /// closed.
    Done,
    /// The action failed with an I/O error.
    Failed,
    /// The bytes that a status read received before its wait was over:
    /// fewer than 32, or none, where the printer did not answer in time.
    Reply(Vec<u8>),
}

/// An event, with the bytes of a reply as a sequence.
pub enum EventView {
    /// The action was done.
    Done,
    /// The action failed.
    Failed,
    /// The bytes of a status reply.
    Reply(Seq<u8>),
}

impl View for Event {
    type V = EventView;

    open spec fn view(&self) -> EventView {
        match self {
            Event::Done => EventView::Done,
            Event::Failed => EventView::Failed,
            Event::Reply(bytes) => EventView::Reply(bytes@),
        }
    }
}

/// A status record with every field zero.
pub open spec fn blank_status() -> PrinterStatus {
    PrinterStatus {
        model: 0,
        error_info_1: 0,
        error_info_2: 0,
        media_width: 0,
        media_type: 0,
        media_length: 0,
        status_type: 0,
        phase_type: 0,
        phase_number: 0,
        notification: 0,
    }
}

/// Command number `k` of a job, counted from zero: reset, initialise and a
/// status request; raster mode, print information with the status that
/// came back and the number of lines, cutting at the end with the job's
/// density, automatic cutting, cutting after each page, no margin; the
/// raster lines in order; print with feeding; and three status requests.
pub open spec fn job_command(
    status: PrinterStatus,
    lines: Seq<RasterLine>,
    high_resolution: bool,
    k: int,
) -> PrinterCommand {
    if k == 0 {
        PrinterCommand::Reset
    } else if k == 1 {
        PrinterCommand::Initialize
    } else if k == 2 {
        PrinterCommand::StatusInfoRequest
    } else if k == 3 {
        PrinterCommand::SetCommandMode(PrinterCommandMode::Raster)
    } else if k == 4 {
        PrinterCommand::SetPrintInformation(status, lines.len() as u32)
    } else if k == 5 {
        PrinterCommand::SetExpandedMode(
            PrinterExpandedMode { cut_at_end: true, high_resolution_printing: high_resolution },
        )
    } else if k == 6 {
        PrinterCommand::SetMode(PrinterMode { auto_cut: true })
    } else if k == 7 {
        PrinterCommand::SetPageNumber(1)
    } else if k == 8 {
        PrinterCommand::SetMarginAmount(0)
    } else if k < 9 + lines.len() {
        PrinterCommand::RasterGraphicsTransfer(lines[k - 9])
    } else if k == 9 + lines.len() {
        PrinterCommand::PrintWithFeeding
    } else {
        PrinterCommand::StatusInfoRequest
    }
}

/// The commands of a whole job, in the order in which they are sent.
pub open spec fn job_commands(
    status: PrinterStatus,
    lines: Seq<RasterLine>,
    high_resolution: bool,
) -> Seq<PrinterCommand> {
    Seq::new(lines.len() + 13, |k: int| job_command(status, lines, high_resolution, k))
}

/// The state of a session.
pub struct SessionView {
    /// The raster lines of the job.
    pub lines: Seq<RasterLine>,
    /// Whether the job prints at double vertical density.
    pub high_resolution: bool,
    /// What the session waits for.
    pub stage: Stage,
    /// How many commands have been sent.
    pub sent: nat,
    /// The status that the printer reported before the job was configured.
    pub status: Option<PrinterStatus>,
    /// How the job stands: `Ok` until it fails.
    pub result: Result<(), PrinterBotError>,
}

impl SessionView {
    /// A session that has not begun.
    pub open spec fn start(lines: Seq<RasterLine>, high_resolution: bool) -> SessionView {
        SessionView {
            lines,
            high_resolution,
            stage: Stage::Opening,
            sent: 0,
            status: None,
            result: Ok(()),
        }
    }

    /// The number of commands of the job.
    pub open spec fn total(self) -> nat {
        self.lines.len() + 13
    }

    /// What holds of every session: the counters are in range, the status
    /// is known from the fourth command on, and a job that failed is being
    /// closed or is over.
    pub open spec fn well_formed(self) -> bool {
        &&& self.lines.len() <= u32::MAX
        &&& self.sent <= self.total()
        &&& (self.sent > 3 ==> self.status is Some)
        &&& match self.stage {
            Stage::Opening => self.sent == 0 && self.status is None && self.result is Ok,
            Stage::Sending => self.result is Ok && self.sent < self.total() && (self.sent < 3
                <==> self.status is None),
            Stage::Reading => self.result is Ok && (if self.status is None {
                self.sent == 3
            } else {
                self.sent > self.lines.len() + 10
            }),
            Stage::Closing => true,
            Stage::Finished => true,
        }
    }

    /// The status that job commands are built with.
    pub open spec fn status_or_blank(self) -> PrinterStatus {
        match self.status {
            Some(status) => status,
            None => blank_status(),
        }
    }

    /// What is to be done next.
    pub open spec fn pending(self) -> Action {
        match self.stage {
            Stage::Opening => Action::Open,
            Stage::Sending => Action::Send(
                job_command(
                    self.status_or_blank(),
                    self.lines,
                    self.high_resolution,
                    self.sent as int,
                ),
            ),
            Stage::Reading => Action::ReadStatus,
            Stage::Closing => Action::Close,
            Stage::Finished => Action::Finish(self.result),
        }
    }

    /// The session that closes the device and then ends with `result`.
    pub open spec fn closing(self, result: Result<(), PrinterBotError>) -> SessionView {
        SessionView { stage: Stage::Closing, result, ..self }
    }

    /// The session after a command was sent: it reads a status reply after
    /// each status request, and sends the next command after any other.
    pub open spec fn after_sent(self) -> SessionView {
        let sent = self.sent + 1;
        SessionView {
            stage: if sent == 3 || sent > self.lines.len() + 10 {
                Stage::Reading
            } else {
                Stage::Sending
            },
            sent: sent as nat,
            ..self
        }
    }

    /// The session after the reply to the first status request: a reply
    /// that is too short ends the job as `ProtocolTruncated`; any other
    /// gives the status that the job is configured with.
    pub open spec fn after_first_reply(self, bytes: Seq<u8>) -> SessionView {
        match decoded_status(bytes) {
            Ok(status) => SessionView { stage: Stage::Sending, status: Some(status), ..self },
            Err(e) => self.closing(Err(e)),
        }
    }

    /// The session after the reply to a status request that follows the
    /// print command: a record that reports a fault ends the job as
    /// `DeviceFailure`; a reply that is too short is passed over. After
    /// the third reply the job is done.
    pub open spec fn after_late_reply(self, bytes: Seq<u8>) -> SessionView {
        match decoded_status(bytes) {
            Ok(status) if status.has_error() => self.closing(Err(PrinterBotError::DeviceFailure)),
            _ => if self.sent >= self.total() {
                self.closing(Ok(()))
            } else {
                SessionView { stage: Stage::Sending, ..self }
            },
        }
    }

    /// The session after an event.
    ///
    /// A failure to open ends the job at once. Any other I/O failure ends
    /// it after the device is closed. An event that does not answer the
    /// pending action counts as a failure of that action.
    pub open spec fn advanced(self, event: EventView) -> SessionView {
        match self.stage {
            Stage::Opening => match event {
                EventView::Done => SessionView { stage: Stage::Sending, ..self },
                _ => SessionView {
                    stage: Stage::Finished,
                    result: Err(PrinterBotError::DeviceFailure),
                    ..self
                },
            },
            Stage::Sending => match event {
                EventView::Done => self.after_sent(),
                _ => self.closing(Err(PrinterBotError::DeviceFailure)),
            },
            Stage::Reading => match event {
                EventView::Reply(bytes) => if self.status is None {
                    self.after_first_reply(bytes)
                } else {
                    self.after_late_reply(bytes)
                },
                _ => self.closing(Err(PrinterBotError::DeviceFailure)),
            },
            Stage::Closing => SessionView { stage: Stage::Finished, ..self },
            Stage::Finished => self,
        }
    }

    /// The milestone that the job has reached.
    pub open spec fn state(self) -> SessionState {
        match self.stage {
            Stage::Opening => SessionState::Closed,
            Stage::Finished => SessionState::Closed,
            _ => if self.sent < 2 {
                SessionState::Opened
            } else if self.status is None {
                SessionState::Reset
            } else if self.sent < 9 {
                SessionState::Ready
            } else if self.sent < 9 + self.lines.len() {
                SessionState::Configuring
            } else if self.stage == Stage::Closing && self.result is Ok {
                SessionState::Finalizing
            } else {
                SessionState::Streaming
            },
        }
    }

    /// A bound on the events that a session still takes before it is
    /// over.
    pub open spec fn steps_left(self) -> nat {
        match self.stage {
            Stage::Opening => 2 * self.total() + 4,
            Stage::Sending => (2 * (self.total() - self.sent) + 2) as nat,
            Stage::Reading => (2 * (self.total() - self.sent) + 3) as nat,
            Stage::Closing => 1,
            Stage::Finished => 0,
        }
    }
}

/// Every event takes a session that is not over a step nearer to its end,
/// and leaves it well formed.
pub proof fn lemma_advanced(session: SessionView, event: EventView)
    requires
        session.well_formed(),
    ensures
        session.advanced(event).well_formed(),
        session.advanced(event).lines == session.lines,
        session.advanced(event).high_resolution == session.high_resolution,
        session.stage != Stage::Finished ==> session.advanced(event).steps_left()
            < session.steps_left(),
{
}

/// Whatever the device does, the commands of a job go out in their order:
/// a session that sends asks for the command whose number is the count of
/// those sent; the count goes up by one when a command was sent and stays
/// in every other case; and the status that the job was configured with
/// stays.
pub proof fn lemma_commands_go_out_in_order(session: SessionView, event: EventView)
    requires
        session.well_formed(),
    ensures
        session.stage == Stage::Sending ==> session.pending() == Action::Send(
            job_command(
                session.status_or_blank(),
                session.lines,
                session.high_resolution,
                session.sent as int,
            ),
        ),
        session.stage != Stage::Sending ==> !(session.pending() is Send),
        session.advanced(event).sent == if session.stage == Stage::Sending && event is Done {
            session.sent + 1
        } else {
            session.sent
        },
        session.status is Some ==> session.advanced(event).status == session.status,
{
}

/// One print job on its way through the protocol.
pub struct PrinterSession {
    lines: Vec<RasterLine>,
    high_resolution: bool,
    stage: Stage,
    sent: u64,
    status: Option<PrinterStatus>,
    result: Result<(), PrinterBotError>,
}

impl View for PrinterSession {
    type V = SessionView;

    closed spec fn view(&self) -> SessionView {
        SessionView {
            lines: self.lines@,
            high_resolution: self.high_resolution,
            stage: self.stage,
            sent: self.sent as nat,
            status: self.status,
            result: self.result,
        }
    }
}

impl PrinterSession {
    #[verifier::type_invariant]
    spec fn valid(&self) -> bool {
        self@.well_formed()
    }

    /// A session for a job of these lines that has not begun. The number
    /// of lines has to fit the four bytes that announce it to the printer.
    pub fn new(lines: Vec<RasterLine>, settings: &Settings) -> (session: PrinterSession)
        requires
            lines@.len() <= u32::MAX,
        ensures
            session@ == SessionView::start(lines@, settings.dpi_600),
            session@.well_formed(),
    {
        PrinterSession {
            lines,
            high_resolution: settings.dpi_600,
            stage: Stage::Opening,
            sent: 0,
            status: None,
            result: Ok(()),
        }
    }

    /// What is to be done next.
    pub fn pending(&self) -> (action: Action)
        ensures
            action == self@.pending(),
            self@.well_formed(),
    {
        proof {
            use_type_invariant(self);
        }
        match self.stage {
            Stage::Opening => Action::Open,
            Stage::Sending => Action::Send(self.next_command()),
            Stage::Reading => Action::ReadStatus,
            Stage::Closing => Action::Close,
            Stage::Finished => Action::Finish(self.result),
        }
    }

    fn next_command(&self) -> (command: PrinterCommand)
        requires
            self@.stage == Stage::Sending,
        ensures
            command == job_command(
                self@.status_or_blank(),
                self@.lines,
                self@.high_resolution,
                self@.sent as int,
            ),
    {
        proof {
            use_type_invariant(self);
        }
        let count: usize = self.lines.len();
        let k: u64 = self.sent;
        if k == 0 {
            PrinterCommand::Reset
        } else if k == 1 {
            PrinterCommand::Initialize
        } else if k == 2 {
            PrinterCommand::StatusInfoRequest
        } else if k == 3 {
            PrinterCommand::SetCommandMode(PrinterCommandMode::Raster)
        } else if k == 4 {
            match self.status {
                Some(status) => PrinterCommand::SetPrintInformation(status, count as u32),
                None => PrinterCommand::StatusInfoRequest,
            }
        } else if k == 5 {
            PrinterCommand::SetExpandedMode(
                PrinterExpandedMode {
                    cut_at_end: true,
                    high_resolution_printing: self.high_resolution,
                },
            )
        } else if k == 6 {
            PrinterCommand::SetMode(PrinterMode { auto_cut: true })
        } else if k == 7 {
            PrinterCommand::SetPageNumber(1)
        } else if k == 8 {
            PrinterCommand::SetMarginAmount(0)
        } else if k < COMMANDS_BEFORE_LINES + count as u64 {
            PrinterCommand::RasterGraphicsTransfer(self.lines[(k - COMMANDS_BEFORE_LINES) as usize])
        } else if k == COMMANDS_BEFORE_LINES + count as u64 {
            PrinterCommand::PrintWithFeeding
        } else {
            PrinterCommand::StatusInfoRequest
        }
    }

    /// Takes in how the pending action went.
    pub fn advance(self, event: Event) -> (next: PrinterSession)
        ensures
            next@ == self@.advanced(event@),
            next@.well_formed(),
    {
        proof {
            use_type_invariant(&self);
            lemma_advanced(self@, event@);
        }
        let count: u64 = self.lines.len() as u64;
        let failed: Result<(), PrinterBotError> = Err(PrinterBotError::DeviceFailure);
        match self.stage {
            Stage::Opening => match event {
                Event::Done => PrinterSession { stage: Stage::Sending, ..self },
                _ => PrinterSession { stage: Stage::Finished, result: failed, ..self },
            },
            Stage::Sending => match event {
                Event::Done => {
                    let sent: u64 = self.sent + 1;
                    let stage = if sent == 3 || sent > count + 10 {
                        Stage::Reading
                    } else {
                        Stage::Sending
                    };
                    PrinterSession { stage, sent, ..self }
                },
                _ => PrinterSession { stage: Stage::Closing, result: failed, ..self },
            },
            Stage::Reading => match event {
                Event::Reply(bytes) => {
                    let decoded = decode_status(bytes.as_slice());
                    if self.status.is_none() {
                        match decoded {
                            Ok(status) => PrinterSession {
                                stage: Stage::Sending,
                                status: Some(status),
                                ..self
                            },
                            Err(e) => PrinterSession {
                                stage: Stage::Closing,
                                result: Err(e),
                                ..self
                            },
                        }
                    } else {
                        let fault = match decoded {
                            Ok(status) => status.has_error(),
                            Err(_) => false,
                        };
                        if fault {
                            PrinterSession { stage: Stage::Closing, result: failed, ..self }
                        } else if self.sent >= count + COMMANDS_BESIDE_LINES {
                            PrinterSession { stage: Stage::Closing, result: Ok(()), ..self }
                        } else {
                            PrinterSession { stage: Stage::Sending, ..self }
                        }
                    }
                },
                _ => PrinterSession { stage: Stage::Closing, result: failed, ..self },
            },
            Stage::Closing => PrinterSession { stage: Stage::Finished, ..self },
            Stage::Finished => self,
        }
    }

    /// Takes in how the pending action went and says what is to be done
    /// next.
    pub fn step(self, event: Event) -> (next: (PrinterSession, Action))
        ensures
            next.0@ == self@.advanced(event@),
            next.1 == self@.advanced(event@).pending(),
            next.0@.well_formed(),
    {
        let session = self.advance(event);
        let action = session.pending();
        (session, action)
    }

    /// The milestone that the job has reached.
    pub fn state(&self) -> (state: SessionState)
        ensures
            state == self@.state(),
    {
        proof {
            use_type_invariant(self);
        }
        let count: u64 = self.lines.len() as u64;
        match self.stage {
            Stage::Opening => SessionState::Closed,
            Stage::Finished => SessionState::Closed,
            _ => if self.sent < 2 {
                SessionState::Opened
            } else if self.status.is_none() {
                SessionState::Reset
            } else if self.sent < COMMANDS_BEFORE_LINES {
                SessionState::Ready
            } else if self.sent < COMMANDS_BEFORE_LINES + count {
                SessionState::Configuring
            } else if self.is_closing() && self.result.is_ok() {
                SessionState::Finalizing
            } else {
                SessionState::Streaming
            },
        }
    }

    fn is_closing(&self) -> (yes: bool)
        ensures
            yes == (self@.stage == Stage::Closing),
    {
        match self.stage {
            Stage::Closing => true,
            _ => false,
        }
    }

    /// How the job ended, once it is over.
    pub fn outcome(&self) -> (outcome: Option<Result<(), PrinterBotError>>)
        ensures
            outcome == if self@.stage == Stage::Finished {
                Some(self@.result)
            } else {
                None
            },
    {
        match self.stage {
            Stage::Finished => Some(self.result),
            _ => None,
        }
    }

    /// How many commands have been sent.
    pub fn sent(&self) -> (sent: u64)
        ensures
            sent == self@.sent,
    {
        self.sent
    }
}

} // verus!
