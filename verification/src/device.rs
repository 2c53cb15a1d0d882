//! A scripted printer: a device that lives in memory, answers as its script
//! says and keeps what it receives. `print_lines` runs a whole job against
//! it.

use crate::command::{encode, encoding, encoding_of_all, PrinterCommand};
use crate::error::PrinterBotError;
use crate::raster::RasterLine;
use crate::render::Settings;
use crate::session::{
    blank_status, job_command, job_commands, lemma_advanced, Action, Event, EventView,
    PrinterSession, SessionView, Stage,
};
use crate::status::{status_of, PrinterStatus, STATUS_LEN};
use vstd::prelude::*;

verus! {

/// The state of a scripted device.
pub struct DeviceView {
    /// Whether the device can be opened at all.
    pub present: bool,
    /// Whether it is open.
    pub open: bool,
    /// How many more commands it takes before sending to it fails.
    pub budget: nat,
    /// The status replies that it has yet to give, in order. When they run
    /// out it does not answer, and a read ends with no bytes.
    pub replies: Seq<Seq<u8>>,
    /// Every byte that it has received, in order.
    pub received: Seq<u8>,
}

/// How a device answers an action, and its state after it.
///
/// Opening succeeds on a device that is present and not open. Sending
/// succeeds on an open device with budget left, which then holds the bytes
/// of the command. Reading from an open device gives the next reply of the
/// script, or no bytes when the script has run out. Closing always
/// succeeds.
pub open spec fn response(device: DeviceView, action: Action) -> (EventView, DeviceView) {
    match action {
        Action::Open => if device.present && !device.open {
            (EventView::Done, DeviceView { open: true, ..device })
        } else {
            (EventView::Failed, device)
        },
        Action::Send(command) => if device.open && device.budget > 0 {
            (
                EventView::Done,
                DeviceView {
                    budget: (device.budget - 1) as nat,
                    received: device.received + encoding(command),
                    ..device
                },
            )
        } else {
            (EventView::Failed, device)
        },
        Action::ReadStatus => if !device.open {
            (EventView::Failed, device)
        } else if device.replies.len() > 0 {
            (
                EventView::Reply(device.replies[0]),
                DeviceView { replies: device.replies.skip(1), ..device },
            )
        } else {
            (EventView::Reply(Seq::empty()), device)
        },
        Action::Close => (EventView::Done, DeviceView { open: false, ..device }),
        Action::Finish(_) => (EventView::Done, device),
    }
}

/// How a session ends on a device, and the state of the device then: the
/// device answers each pending action of the session until the session is
/// over.
pub open spec fn run(session: SessionView, device: DeviceView) -> (
    Result<(), PrinterBotError>,
    DeviceView,
)
    decreases session.steps_left(),
{
    if !session.well_formed() || session.stage == Stage::Finished {
        (session.result, device)
    } else {
        let answer = response(device, session.pending());
        run(session.advanced(answer.0), answer.1)
    }
}

/// Whether a device can be opened for a job: it is present and not open.
pub open spec fn can_open(device: DeviceView) -> bool {
    device.present && !device.open
}

/// Whether reply number `j` of a script is missing or shorter than a status
/// record.
pub open spec fn reply_is_short(replies: Seq<Seq<u8>>, j: int) -> bool {
    j >= replies.len() || replies[j].len() < STATUS_LEN
}

/// Whether reply number `j` of a script is a status record that reports a
/// fault.
pub open spec fn reply_reports_fault(replies: Seq<Seq<u8>>, j: int) -> bool {
    j < replies.len() && replies[j].len() >= STATUS_LEN && status_of(replies[j]).has_error()
}

/// The status record of the first reply of a script.
pub open spec fn first_status(replies: Seq<Seq<u8>>) -> PrinterStatus {
    if replies.len() > 0 {
        status_of(replies[0])
    } else {
        blank_status()
    }
}

/// How many commands of a job of `line_count` lines the session gives a
/// device, if the device takes them all: none if it cannot be opened, the
/// first three if its first reply is short, and those up to the status
/// request whose reply reports a fault, else all.
pub open spec fn commands_offered(line_count: nat, device: DeviceView) -> nat {
    if !can_open(device) {
        0
    } else if reply_is_short(device.replies, 0) {
        3
    } else if reply_reports_fault(device.replies, 1) {
        line_count + 11
    } else if reply_reports_fault(device.replies, 2) {
        line_count + 12
    } else {
        line_count + 13
    }
}

/// How many commands of a job reach a device: those that the session
/// gives it, as far as its budget goes.
pub open spec fn commands_delivered(line_count: nat, device: DeviceView) -> nat {
    if commands_offered(line_count, device) <= device.budget {
        commands_offered(line_count, device)
    } else {
        device.budget
    }
}

/// How many status reads a job makes on a device: one after each status
/// request that reached it.
pub open spec fn status_reads(line_count: nat, device: DeviceView) -> nat {
    let delivered = commands_delivered(line_count, device);
    if delivered < 3 {
        0
    } else if delivered <= line_count + 10 {
        1
    } else {
        (delivered - line_count - 9) as nat
    }
}

/// How a job of `line_count` lines ends on a device.
///
/// It succeeds where the device can be opened, takes all the commands,
/// answers the first status request with a whole record and reports no
/// fault in its three later replies. A first reply that is short ends it
/// as `ProtocolTruncated`; anything else as `DeviceFailure`.
pub open spec fn job_outcome(line_count: nat, device: DeviceView) -> Result<(), PrinterBotError> {
    if !can_open(device) || device.budget < 3 {
        Err(PrinterBotError::DeviceFailure)
    } else if reply_is_short(device.replies, 0) {
        Err(PrinterBotError::ProtocolTruncated)
    } else if device.budget < line_count + 13 || reply_reports_fault(device.replies, 1)
        || reply_reports_fault(device.replies, 2) || reply_reports_fault(device.replies, 3) {
        Err(PrinterBotError::DeviceFailure)
    } else {
        Ok(())
    }
}

/// The bytes of the first `n` commands of a job.
pub open spec fn job_bytes(
    status: PrinterStatus,
    lines: Seq<RasterLine>,
    high_resolution: bool,
    n: nat,
) -> Seq<u8> {
    encoding_of_all(job_commands(status, lines, high_resolution).take(n as int))
}

/// The replies of a script that are left after `reads` status reads.
pub open spec fn replies_after(replies: Seq<Seq<u8>>, reads: nat) -> Seq<Seq<u8>> {
    if reads <= replies.len() {
        replies.skip(reads as int)
    } else {
        Seq::empty()
    }
}

/// A device after a job: closed, if the job could open it; holding, after
/// what it held, the bytes of the commands that reached it, which are the
/// first so many of the job in their order; its budget less by their
/// number; and its script without the replies that were read. A device
/// that could not be opened is as it was.
pub open spec fn device_after_job(
    lines: Seq<RasterLine>,
    high_resolution: bool,
    device: DeviceView,
) -> DeviceView {
    if !can_open(device) {
        device
    } else {
        DeviceView {
            present: device.present,
            open: false,
            budget: (device.budget - commands_delivered(lines.len(), device)) as nat,
            replies: replies_after(device.replies, status_reads(lines.len(), device)),
            received: device.received + job_bytes(
                first_status(device.replies),
                lines,
                high_resolution,
                commands_delivered(lines.len(), device),
            ),
        }
    }
}

/// A session that is about to send command number `sent`.
spec fn sending_at(
    lines: Seq<RasterLine>,
    high_resolution: bool,
    status: Option<PrinterStatus>,
    sent: nat,
) -> SessionView {
    SessionView { lines, high_resolution, stage: Stage::Sending, sent, status, result: Ok(()) }
}

/// A session that waits for the reply to command number `sent - 1`.
spec fn reading_at(
    lines: Seq<RasterLine>,
    high_resolution: bool,
    status: Option<PrinterStatus>,
    sent: nat,
) -> SessionView {
    SessionView { lines, high_resolution, stage: Stage::Reading, sent, status, result: Ok(()) }
}

proof fn lemma_job_bytes_step(
    status: PrinterStatus,
    lines: Seq<RasterLine>,
    high_resolution: bool,
    n: nat,
)
    requires
        n < lines.len() + 13,
    ensures
        job_bytes(status, lines, high_resolution, n + 1) == job_bytes(
            status,
            lines,
            high_resolution,
            n,
        ) + encoding(job_command(status, lines, high_resolution, n as int)),
{
    let commands = job_commands(status, lines, high_resolution);
    assert(commands.take(n + 1 as int).drop_last() =~= commands.take(n as int));
    assert(commands.take(n + 1 as int).last() == commands[n as int]);
}

proof fn lemma_run_closing(session: SessionView, device: DeviceView)
    requires
        session.well_formed(),
        session.stage == Stage::Closing,
    ensures
        run(session, device) == (session.result, DeviceView { open: false, ..device }),
{
    let closed = DeviceView { open: false, ..device };
    let over = session.advanced(EventView::Done);
    assert(response(device, session.pending()) == (EventView::Done, closed));
    assert(run(session, device) == run(over, closed));
    assert(run(over, closed) == (session.result, closed));
}

proof fn lemma_sends(
    lines: Seq<RasterLine>,
    high_resolution: bool,
    known: Option<PrinterStatus>,
    status: PrinterStatus,
    k: nat,
    m: nat,
    device: DeviceView,
    base: Seq<u8>,
)
    requires
        lines.len() <= u32::MAX,
        k < m,
        (known is None && m == 3) || (known == Some(status) && 3 <= k && (m == lines.len() + 11 || (
            lines.len() + 11 <= k && m == k + 1 && m <= lines.len() + 13))),
        device.open,
        device.received == base + job_bytes(status, lines, high_resolution, k),
    ensures
        run(sending_at(lines, high_resolution, known, k), device) == (if device.budget >= m - k {
            run(
                reading_at(lines, high_resolution, known, m),
                DeviceView {
                    budget: (device.budget - (m - k)) as nat,
                    received: base + job_bytes(status, lines, high_resolution, m),
                    ..device
                },
            )
        } else {
            (
                Err(PrinterBotError::DeviceFailure),
                DeviceView {
                    budget: 0,
                    open: false,
                    received: base + job_bytes(
                        status,
                        lines,
                        high_resolution,
                        k + device.budget,
                    ),
                    ..device
                },
            )
        }),
    decreases m - k,
{
    let session = sending_at(lines, high_resolution, known, k);
    assert(session.well_formed());
    let answer = response(device, session.pending());
    assert(run(session, device) == run(session.advanced(answer.0), answer.1));
    if device.budget == 0 {
        assert(answer == (EventView::Failed, device));
        lemma_run_closing(session.advanced(answer.0), device);
        assert(device == DeviceView { budget: 0, ..device });
    } else {
        let command = job_command(status, lines, high_resolution, k as int);
        assert(session.pending() == Action::Send(command));
        lemma_job_bytes_step(status, lines, high_resolution, k);
        let after = DeviceView {
            budget: (device.budget - 1) as nat,
            received: base + job_bytes(status, lines, high_resolution, k + 1),
            ..device
        };
        assert(device.received + encoding(command) =~= after.received);
        assert(answer == (EventView::Done, after));
        if m == k + 1 {
            assert(session.advanced(answer.0) == reading_at(lines, high_resolution, known, m));
        } else {
            assert(session.advanced(answer.0) == sending_at(
                lines,
                high_resolution,
                known,
                k + 1,
            ));
            lemma_sends(lines, high_resolution, known, status, k + 1, m, after, base);
        }
    }
}

proof fn lemma_late_read(
    lines: Seq<RasterLine>,
    high_resolution: bool,
    status: PrinterStatus,
    j: nat,
    script: Seq<Seq<u8>>,
    device: DeviceView,
)
    requires
        lines.len() <= u32::MAX,
        1 <= j <= 3,
        device.open,
        device.replies == replies_after(script, j),
    ensures
        run(reading_at(lines, high_resolution, Some(status), lines.len() + 10 + j), device) == ({
            let read = DeviceView { replies: replies_after(script, j + 1), ..device };
            if reply_reports_fault(script, j as int) {
                (Err(PrinterBotError::DeviceFailure), DeviceView { open: false, ..read })
            } else if j == 3 {
                (Ok(()), DeviceView { open: false, ..read })
            } else {
                run(
                    sending_at(lines, high_resolution, Some(status), lines.len() + 10 + j),
                    read,
                )
            }
        }),
{
    let session = reading_at(lines, high_resolution, Some(status), lines.len() + 10 + j);
    assert(session.well_formed());
    let answer = response(device, session.pending());
    let read = DeviceView { replies: replies_after(script, j + 1), ..device };
    assert(run(session, device) == run(session.advanced(answer.0), answer.1));
    if j < script.len() {
        assert(device.replies[0] == script[j as int]);
        assert(device.replies.skip(1) =~= replies_after(script, j + 1));
        assert(answer == (EventView::Reply(script[j as int]), read));
    } else {
        assert(device.replies =~= replies_after(script, j + 1));
        assert(answer.0 == EventView::Reply(Seq::<u8>::empty()));
        assert(answer.1 == read);
    }
    if reply_reports_fault(script, j as int) || j == 3 {
        lemma_run_closing(session.advanced(answer.0), read);
    }
}

/// What a job does to a scripted device is what `job_outcome` and
/// `device_after_job` say.
pub proof fn lemma_job(lines: Seq<RasterLine>, high_resolution: bool, device: DeviceView)
    requires
        lines.len() <= u32::MAX,
    ensures
        run(SessionView::start(lines, high_resolution), device) == (
            job_outcome(lines.len(), device),
            device_after_job(lines, high_resolution, device),
        ),
{
    let begin = SessionView::start(lines, high_resolution);
    let count = lines.len();
    let script = device.replies;
    let status = first_status(script);
    let base = device.received;
    let wanted = (job_outcome(count, device), device_after_job(lines, high_resolution, device));
    assert(begin.well_formed());
    let answer = response(device, begin.pending());
    assert(run(begin, device) == run(begin.advanced(answer.0), answer.1));
    if !can_open(device) {
        assert(run(begin.advanced(answer.0), answer.1) == wanted);
    } else {
        let opened = DeviceView { open: true, ..device };
        assert(begin.advanced(answer.0) == sending_at(lines, high_resolution, None, 0));
        assert(job_commands(status, lines, high_resolution).take(0) =~= Seq::empty());
        assert(opened.received =~= base + job_bytes(status, lines, high_resolution, 0));
        lemma_sends(lines, high_resolution, None, status, 0, 3, opened, base);
        assert(replies_after(script, 0) =~= script);
        if device.budget < 3 {
            assert(run(begin, device).1 =~= wanted.1);
        } else {
            let asked = DeviceView {
                budget: (device.budget - 3) as nat,
                received: base + job_bytes(status, lines, high_resolution, 3),
                ..opened
            };
            let waiting = reading_at(lines, high_resolution, None, 3);
            assert(waiting.well_formed());
            let reply = response(asked, waiting.pending());
            assert(run(waiting, asked) == run(waiting.advanced(reply.0), reply.1));
            let told = DeviceView { replies: replies_after(script, 1), ..asked };
            if script.len() > 0 {
                assert(script.skip(1) =~= replies_after(script, 1));
                assert(reply == (EventView::Reply(script[0]), told));
            } else {
                assert(script =~= replies_after(script, 1));
                assert(reply.0 == EventView::Reply(Seq::<u8>::empty()));
                assert(reply.1 == told);
            }
            if reply_is_short(script, 0) {
                lemma_run_closing(waiting.advanced(reply.0), told);
                assert(run(begin, device).1 =~= wanted.1);
            } else {
                assert(waiting.advanced(reply.0) == sending_at(
                    lines,
                    high_resolution,
                    Some(status),
                    3,
                ));
                lemma_sends(
                    lines,
                    high_resolution,
                    Some(status),
                    status,
                    3,
                    count + 11,
                    told,
                    base,
                );
                if told.budget < count + 8 {
                    assert(run(begin, device).1 =~= wanted.1);
                } else {
                    lemma_job_tail(lines, high_resolution, device);
                }
            }
        }
    }
}

proof fn lemma_job_tail(lines: Seq<RasterLine>, high_resolution: bool, device: DeviceView)
    requires
        lines.len() <= u32::MAX,
        can_open(device),
        !reply_is_short(device.replies, 0),
        device.budget >= lines.len() + 11,
    ensures
        run(
            reading_at(
                lines,
                high_resolution,
                Some(first_status(device.replies)),
                lines.len() + 11,
            ),
            DeviceView {
                open: true,
                budget: (device.budget - (lines.len() + 11)) as nat,
                replies: replies_after(device.replies, 1),
                received: device.received + job_bytes(
                    first_status(device.replies),
                    lines,
                    high_resolution,
                    lines.len() + 11,
                ),
                ..device
            },
        ) == (job_outcome(lines.len(), device), device_after_job(lines, high_resolution, device)),
{
    let count = lines.len();
    let script = device.replies;
    let status = first_status(script);
    let base = device.received;
    let known = Some(status);
    let wanted = (job_outcome(count, device), device_after_job(lines, high_resolution, device));
    let first = DeviceView {
        open: true,
        budget: (device.budget - (count + 11)) as nat,
        replies: replies_after(script, 1),
        received: base + job_bytes(status, lines, high_resolution, count + 11),
        ..device
    };
    let got = run(reading_at(lines, high_resolution, known, count + 11), first);
    lemma_late_read(lines, high_resolution, status, 1, script, first);
    let first_read = DeviceView { replies: replies_after(script, 2), ..first };
    if reply_reports_fault(script, 1) {
        assert(got.1 =~= wanted.1);
    } else {
        lemma_sends(lines, high_resolution, known, status, count + 11, count + 12, first_read, base);
        if first_read.budget < 1 {
            assert(got.1 =~= wanted.1);
        } else {
            let second = DeviceView {
                budget: (first_read.budget - 1) as nat,
                received: base + job_bytes(status, lines, high_resolution, count + 12),
                ..first_read
            };
            lemma_late_read(lines, high_resolution, status, 2, script, second);
            let second_read = DeviceView { replies: replies_after(script, 3), ..second };
            if reply_reports_fault(script, 2) {
                assert(got.1 =~= wanted.1);
            } else {
                lemma_sends(
                    lines,
                    high_resolution,
                    known,
                    status,
                    count + 12,
                    count + 13,
                    second_read,
                    base,
                );
                if second_read.budget < 1 {
                    assert(got.1 =~= wanted.1);
                } else {
                    let third = DeviceView {
                        budget: (second_read.budget - 1) as nat,
                        received: base + job_bytes(status, lines, high_resolution, count + 13),
                        ..second_read
                    };
                    lemma_late_read(lines, high_resolution, status, 3, script, third);
                    assert(got.1 =~= wanted.1);
                }
            }
        }
    }
}

/// A printer that lives in memory.
pub struct ScriptedDevice {
    present: bool,
    open: bool,
    budget: u64,
    replies: Vec<Vec<u8>>,
    received: Vec<u8>,
}

impl View for ScriptedDevice {
    type V = DeviceView;

    closed spec fn view(&self) -> DeviceView {
        DeviceView {
            present: self.present,
            open: self.open,
            budget: self.budget as nat,
            replies: reply_bytes(self.replies@),
            received: self.received@,
        }
    }
}

/// The bytes of each reply.
pub open spec fn reply_bytes(replies: Seq<Vec<u8>>) -> Seq<Seq<u8>> {
    Seq::new(replies.len(), |i: int| replies[i]@)
}

impl ScriptedDevice {
    /// A closed device that has received nothing. It can be opened if
    /// `present`, takes `budget` commands and gives `replies` to status
    /// reads.
    pub fn new(present: bool, budget: u64, replies: Vec<Vec<u8>>) -> (device: ScriptedDevice)
        ensures
            device@ == (DeviceView {
                present,
                open: false,
                budget: budget as nat,
                replies: reply_bytes(replies@),
                received: Seq::empty(),
            }),
    {
        ScriptedDevice { present, open: false, budget, replies, received: Vec::new() }
    }

    /// Every byte received so far.
    pub fn received(&self) -> (bytes: &Vec<u8>)
        ensures
            bytes@ == self@.received,
    {
        &self.received
    }

    /// Whether the device is open.
    pub fn is_open(&self) -> (open: bool)
        ensures
            open == self@.open,
    {
        self.open
    }

    /// How many more commands the device takes.
    pub fn budget(&self) -> (budget: u64)
        ensures
            budget == self@.budget,
    {
        self.budget
    }

    /// How many replies of the script have not been read.
    pub fn replies_left(&self) -> (left: usize)
        ensures
            left == self@.replies.len(),
    {
        self.replies.len()
    }

    /// Does what the action asks of the device and says how it went.
    pub fn perform(&mut self, action: &Action) -> (event: Event)
        ensures
            (event@, final(self)@) == response(old(self)@, *action),
    {
        match action {
            Action::Open => {
                if self.present && !self.open {
                    self.open = true;
                    Event::Done
                } else {
                    Event::Failed
                }
            },
            Action::Send(command) => {
                if self.open && self.budget > 0 {
                    let mut bytes = encode(command);
                    self.received.append(&mut bytes);
                    self.budget = self.budget - 1;
                    Event::Done
                } else {
                    Event::Failed
                }
            },
            Action::ReadStatus => {
                if !self.open {
                    Event::Failed
                } else if self.replies.len() > 0 {
                    let reply = self.replies.remove(0);
                    assert(self@.replies =~= old(self)@.replies.skip(1));
                    Event::Reply(reply)
                } else {
                    let reply: Vec<u8> = Vec::new();
                    assert(reply@ =~= Seq::<u8>::empty());
                    Event::Reply(reply)
                }
            },
            Action::Close => {
                self.open = false;
                Event::Done
            },
            Action::Finish(_) => Event::Done,
        }
    }
}

/// Runs a print job on a scripted device, from opening it to closing it,
/// and says how the job ended. The number of lines has to fit the four
/// bytes that announce it to the printer.
///
/// The device is opened, reset and asked for its status; the job is
/// configured with that status; the lines are sent in order and printed;
/// three more status replies are looked at; the device is closed. The job
/// stops at the first transfer that fails, at a first status reply that is
/// short, and at a later one that reports a fault, and closes the device
/// then too.
pub fn print_lines(lines: Vec<RasterLine>, settings: &Settings, device: &mut ScriptedDevice) -> (outcome:
    Result<(), PrinterBotError>)
    requires
        lines@.len() <= u32::MAX,
    ensures
        outcome == job_outcome(lines@.len(), old(device)@),
        final(device)@ == device_after_job(lines@, settings.dpi_600, old(device)@),
{
    let ghost wanted = run(SessionView::start(lines@, settings.dpi_600), device@);
    proof {
        lemma_job(lines@, settings.dpi_600, device@);
    }
    let mut session = PrinterSession::new(lines, settings);
    loop
        invariant
            session@.well_formed(),
            run(session@, device@) == wanted,
            wanted == (
                job_outcome(lines@.len(), old(device)@),
                device_after_job(lines@, settings.dpi_600, old(device)@),
            ),
        decreases session@.steps_left(),
    {
        let action = session.pending();
        if let Action::Finish(outcome) = action {
            assert(session@.stage == Stage::Finished);
            assert(run(session@, device@) == (outcome, device@));
            return outcome;
        }
        let ghost before = device@;
        let event = device.perform(&action);
        proof {
            lemma_advanced(session@, event@);
            assert(session@.stage != Stage::Finished);
            assert(run(session@, before) == run(session@.advanced(event@), device@));
        }
        session = session.advance(event);
    }
}

/// A job that succeeds has sent every command of the job, in the order of
/// `job_commands`, whatever status the printer reported, and has closed
/// the device.
pub proof fn lemma_successful_job_sends_all_in_order(
    lines: Seq<RasterLine>,
    high_resolution: bool,
    device: DeviceView,
)
    requires
        job_outcome(lines.len(), device) is Ok,
    ensures
        device_after_job(lines, high_resolution, device).received == device.received
            + encoding_of_all(job_commands(first_status(device.replies), lines, high_resolution)),
        !device_after_job(lines, high_resolution, device).open,
{
    let commands = job_commands(first_status(device.replies), lines, high_resolution);
    assert(commands.take(commands.len() as int) =~= commands);
}

/// The status that the printer reported changes one command of a job and
/// no other: the print information, which is command number four.
pub proof fn lemma_status_changes_print_information_only(
    first: PrinterStatus,
    second: PrinterStatus,
    lines: Seq<RasterLine>,
    high_resolution: bool,
    k: int,
)
    requires
        k != 4,
    ensures
        job_command(first, lines, high_resolution, k) == job_command(
            second,
            lines,
            high_resolution,
            k,
        ),
        job_command(first, lines, high_resolution, 4) == PrinterCommand::SetPrintInformation(
            first,
            lines.len() as u32,
        ),
{
}

/// A first status reply that is shorter than a status record ends the job
/// as `ProtocolTruncated`. The device has then received reset, initialise
/// and the status request, and nothing after them.
pub proof fn lemma_short_status_aborts_job(
    lines: Seq<RasterLine>,
    high_resolution: bool,
    device: DeviceView,
)
    requires
        can_open(device),
        device.budget >= 3,
        reply_is_short(device.replies, 0),
    ensures
        job_outcome(lines.len(), device) == Err::<(), PrinterBotError>(
            PrinterBotError::ProtocolTruncated,
        ),
        device_after_job(lines, high_resolution, device).received == device.received + encoding(
            PrinterCommand::Reset,
        ) + encoding(PrinterCommand::Initialize) + encoding(PrinterCommand::StatusInfoRequest),
        !device_after_job(lines, high_resolution, device).open,
{
    let status = first_status(device.replies);
    let commands = job_commands(status, lines, high_resolution);
    lemma_job_bytes_step(status, lines, high_resolution, 0);
    lemma_job_bytes_step(status, lines, high_resolution, 1);
    lemma_job_bytes_step(status, lines, high_resolution, 2);
    assert(commands.take(0) =~= Seq::empty());
    assert(job_bytes(status, lines, high_resolution, 0) =~= Seq::empty());
    assert(device.received + job_bytes(status, lines, high_resolution, 3) =~= device.received
        + encoding(PrinterCommand::Reset) + encoding(PrinterCommand::Initialize) + encoding(
        PrinterCommand::StatusInfoRequest,
    ));
}

/// A device that cannot be opened is left as it was: the job fails as
/// `DeviceFailure` and not a byte is sent.
pub proof fn lemma_unopened_device_is_untouched(
    lines: Seq<RasterLine>,
    high_resolution: bool,
    device: DeviceView,
)
    requires
        !can_open(device),
    ensures
        job_outcome(lines.len(), device) == Err::<(), PrinterBotError>(
            PrinterBotError::DeviceFailure,
        ),
        device_after_job(lines, high_resolution, device) == device,
{
}

/// Jobs that run one after the other on a device do not interleave:
/// whatever the device holds of the second job comes after all that it
/// holds of the first.
pub proof fn lemma_jobs_do_not_interleave(
    first: Seq<RasterLine>,
    first_density: bool,
    second: Seq<RasterLine>,
    second_density: bool,
    device: DeviceView,
)
    requires
        can_open(device),
    ensures
        ({
            let between = device_after_job(first, first_density, device);
            let after = device_after_job(second, second_density, between);
            &&& can_open(between)
            &&& after.received == device.received + job_bytes(
                first_status(device.replies),
                first,
                first_density,
                commands_delivered(first.len(), device),
            ) + job_bytes(
                first_status(between.replies),
                second,
                second_density,
                commands_delivered(second.len(), between),
            )
        }),
{
}

} // verus!
