use label_printer::command::{
    encode, PrinterCommand, PrinterCommandMode, PrinterExpandedMode, PrinterMode,
};
use label_printer::device::{print_lines, ScriptedDevice};
use label_printer::error::PrinterBotError;
use label_printer::pixels::RgbaImage;
use label_printer::render::{render_image, Settings};
use label_printer::session::{Action, Event, PrinterSession, SessionState};
use label_printer::status::{decode_status, Phase, PrinterStatus};

fn status_reply() -> Vec<u8> {
    let mut reply = vec![0u8; 32];
    reply[0] = 0x80;
    reply[1] = 0x20;
    reply[2] = 0x42;
    reply[3] = 0x34;
    reply[4] = 0x35;
    reply[5] = 0x30;
    reply[10] = 62;
    reply[11] = 0x0A;
    reply[17] = 0;
    reply
}

fn fault_reply() -> Vec<u8> {
    let mut reply = status_reply();
    reply[8] = 0x01;
    reply[18] = 0x02;
    reply
}

fn status() -> PrinterStatus {
    decode_status(&status_reply()).unwrap()
}

fn some_lines(count: usize) -> Vec<[u8; 90]> {
    let mut lines = Vec::new();
    for i in 0..count {
        let mut line = [0u8; 90];
        line[i % 90] = (i % 251) as u8 + 1;
        lines.push(line);
    }
    lines
}

fn job_commands(status: PrinterStatus, lines: &[[u8; 90]], dpi_600: bool) -> Vec<PrinterCommand> {
    let mut commands = vec![
        PrinterCommand::Reset,
        PrinterCommand::Initialize,
        PrinterCommand::StatusInfoRequest,
        PrinterCommand::SetCommandMode(PrinterCommandMode::Raster),
        PrinterCommand::SetPrintInformation(status, lines.len() as u32),
        PrinterCommand::SetExpandedMode(PrinterExpandedMode {
            cut_at_end: true,
            high_resolution_printing: dpi_600,
        }),
        PrinterCommand::SetMode(PrinterMode { auto_cut: true }),
        PrinterCommand::SetPageNumber(1),
        PrinterCommand::SetMarginAmount(0),
    ];
    for line in lines {
        commands.push(PrinterCommand::RasterGraphicsTransfer(*line));
    }
    commands.push(PrinterCommand::PrintWithFeeding);
    commands.push(PrinterCommand::StatusInfoRequest);
    commands.push(PrinterCommand::StatusInfoRequest);
    commands.push(PrinterCommand::StatusInfoRequest);
    commands
}

fn bytes_of(commands: &[PrinterCommand]) -> Vec<u8> {
    let mut bytes = Vec::new();
    for command in commands {
        bytes.extend_from_slice(&encode(command));
    }
    bytes
}

#[test]
fn simple_commands_have_their_bytes() {
    assert_eq!(encode(&PrinterCommand::Reset), vec![0u8; 200]);
    assert_eq!(encode(&PrinterCommand::Initialize), vec![0x1B, 0x40]);
    assert_eq!(encode(&PrinterCommand::StatusInfoRequest), vec![0x1B, 0x69, 0x53]);
    assert_eq!(encode(&PrinterCommand::PrintWithFeeding), vec![0x1A]);
}

#[test]
fn command_mode_selects_the_dialect() {
    assert_eq!(
        encode(&PrinterCommand::SetCommandMode(PrinterCommandMode::EscP)),
        vec![0x1B, 0x69, 0x61, 0x00]
    );
    assert_eq!(
        encode(&PrinterCommand::SetCommandMode(PrinterCommandMode::Raster)),
        vec![0x1B, 0x69, 0x61, 0x01]
    );
    assert_eq!(
        encode(&PrinterCommand::SetCommandMode(PrinterCommandMode::PtouchTemplate)),
        vec![0x1B, 0x69, 0x61, 0x03]
    );
}

#[test]
fn print_information_carries_media_and_line_count() {
    let mut status = status();
    status.media_type = 0x0B;
    status.media_width = 29;
    status.media_length = 90;
    assert_eq!(
        encode(&PrinterCommand::SetPrintInformation(status, 360)),
        vec![0x1B, 0x69, 0x7A, 0xCE, 0x0B, 29, 90, 0x68, 0x01, 0x00, 0x00, 0x00, 0x00]
    );
    assert_eq!(
        encode(&PrinterCommand::SetPrintInformation(status, 0x0403_0201)),
        vec![0x1B, 0x69, 0x7A, 0xCE, 0x0B, 29, 90, 0x01, 0x02, 0x03, 0x04, 0x00, 0x00]
    );
    assert_eq!(
        encode(&PrinterCommand::SetPrintInformation(status, u32::MAX)),
        vec![0x1B, 0x69, 0x7A, 0xCE, 0x0B, 29, 90, 0xFF, 0xFF, 0xFF, 0xFF, 0x00, 0x00]
    );
    assert_eq!(
        encode(&PrinterCommand::SetPrintInformation(status, 0)),
        vec![0x1B, 0x69, 0x7A, 0xCE, 0x0B, 29, 90, 0x00, 0x00, 0x00, 0x00, 0x00, 0x00]
    );
}

#[test]
fn mode_switches_set_their_bits() {
    let expanded = |cut_at_end, high_resolution_printing| {
        encode(&PrinterCommand::SetExpandedMode(PrinterExpandedMode {
            cut_at_end,
            high_resolution_printing,
        }))
    };
    assert_eq!(expanded(false, false), vec![0x1B, 0x69, 0x4B, 0x00]);
    assert_eq!(expanded(true, false), vec![0x1B, 0x69, 0x4B, 0x08]);
    assert_eq!(expanded(false, true), vec![0x1B, 0x69, 0x4B, 0x40]);
    assert_eq!(expanded(true, true), vec![0x1B, 0x69, 0x4B, 0x48]);
    assert_eq!(
        encode(&PrinterCommand::SetMode(PrinterMode { auto_cut: true })),
        vec![0x1B, 0x69, 0x4D, 0x40]
    );
    assert_eq!(
        encode(&PrinterCommand::SetMode(PrinterMode { auto_cut: false })),
        vec![0x1B, 0x69, 0x4D, 0x00]
    );
}

#[test]
fn page_number_and_margin_carry_their_numbers() {
    assert_eq!(encode(&PrinterCommand::SetPageNumber(1)), vec![0x1B, 0x69, 0x41, 0x01]);
    assert_eq!(encode(&PrinterCommand::SetPageNumber(255)), vec![0x1B, 0x69, 0x41, 0xFF]);
    assert_eq!(encode(&PrinterCommand::SetMarginAmount(0)), vec![0x1B, 0x69, 0x64, 0x00, 0x00]);
    assert_eq!(encode(&PrinterCommand::SetMarginAmount(35)), vec![0x1B, 0x69, 0x64, 0x23, 0x00]);
    assert_eq!(
        encode(&PrinterCommand::SetMarginAmount(0x1234)),
        vec![0x1B, 0x69, 0x64, 0x34, 0x12]
    );
}

#[test]
fn raster_transfer_is_header_and_line() {
    let mut line = [0u8; 90];
    for (i, byte) in line.iter_mut().enumerate() {
        *byte = i as u8;
    }
    let bytes = encode(&PrinterCommand::RasterGraphicsTransfer(line));
    assert_eq!(bytes.len(), 93);
    assert_eq!(&bytes[..3], &[0x67, 0x00, 0x5A]);
    assert_eq!(&bytes[3..], &line[..]);
}

#[test]
fn status_is_read_from_fixed_places() {
    let mut reply = vec![0u8; 32];
    for (i, byte) in reply.iter_mut().enumerate() {
        *byte = 100 + i as u8;
    }
    let status = decode_status(&reply).unwrap();
    assert_eq!(
        status,
        PrinterStatus {
            model: 104,
            error_info_1: 108,
            error_info_2: 109,
            media_width: 110,
            media_type: 111,
            media_length: 117,
            status_type: 118,
            phase_type: 119,
            phase_number: 120 * 256 + 121,
            notification: 122,
        }
    );
    reply.push(7);
    assert_eq!(decode_status(&reply), Ok(status));
}

#[test]
fn short_status_is_truncated() {
    assert_eq!(decode_status(&[]), Err(PrinterBotError::ProtocolTruncated));
    assert_eq!(decode_status(&[0x80; 31]), Err(PrinterBotError::ProtocolTruncated));
    assert!(decode_status(&[0x80; 32]).is_ok());
}

#[test]
fn status_shows_its_phase() {
    let ready = status();
    assert!(!ready.has_error());
    assert_eq!(ready.phase(), Phase::Ready);
    let mut printing = ready;
    printing.phase_type = 0x01;
    assert_eq!(printing.phase(), Phase::Printing);
    let mut no_media = printing;
    no_media.error_info_1 = 0x01;
    assert!(no_media.has_error());
    assert_eq!(no_media.phase(), Phase::Error);
    let mut cover_open = ready;
    cover_open.error_info_2 = 0x10;
    assert_eq!(cover_open.phase(), Phase::Error);
    let mut error_reply = ready;
    error_reply.status_type = 0x02;
    assert_eq!(error_reply.phase(), Phase::Error);
}

#[test]
fn session_walks_through_the_job() {
    let lines = some_lines(2);
    let settings = Settings { dpi_600: true };
    let mut session = PrinterSession::new(lines.clone(), &settings);
    assert_eq!(session.state(), SessionState::Closed);
    assert_eq!(session.pending(), Action::Open);
    assert_eq!(session.outcome(), None);

    session = session.advance(Event::Done);
    assert_eq!(session.state(), SessionState::Opened);
    assert_eq!(session.pending(), Action::Send(PrinterCommand::Reset));
    session = session.advance(Event::Done);
    assert_eq!(session.state(), SessionState::Opened);
    assert_eq!(session.pending(), Action::Send(PrinterCommand::Initialize));
    session = session.advance(Event::Done);
    assert_eq!(session.state(), SessionState::Reset);
    assert_eq!(session.pending(), Action::Send(PrinterCommand::StatusInfoRequest));
    session = session.advance(Event::Done);
    assert_eq!(session.pending(), Action::ReadStatus);
    assert_eq!(session.state(), SessionState::Reset);
    session = session.advance(Event::Reply(status_reply()));
    assert_eq!(session.state(), SessionState::Ready);

    let expected = job_commands(status(), &lines, true);
    for (k, command) in expected.iter().enumerate().skip(3).take(6) {
        assert_eq!(session.sent(), k as u64);
        assert_eq!(session.state(), SessionState::Ready);
        assert_eq!(session.pending(), Action::Send(*command));
        session = session.advance(Event::Done);
    }
    assert_eq!(session.state(), SessionState::Configuring);
    assert_eq!(session.pending(), Action::Send(PrinterCommand::RasterGraphicsTransfer(lines[0])));
    session = session.advance(Event::Done);
    assert_eq!(session.state(), SessionState::Configuring);
    assert_eq!(session.pending(), Action::Send(PrinterCommand::RasterGraphicsTransfer(lines[1])));
    session = session.advance(Event::Done);
    assert_eq!(session.state(), SessionState::Streaming);
    assert_eq!(session.pending(), Action::Send(PrinterCommand::PrintWithFeeding));
    session = session.advance(Event::Done);
    for cycle in 0..3 {
        assert_eq!(session.state(), SessionState::Streaming);
        assert_eq!(session.pending(), Action::Send(PrinterCommand::StatusInfoRequest));
        session = session.advance(Event::Done);
        assert_eq!(session.pending(), Action::ReadStatus);
        // a late reply that is short, or none at all, is passed over
        let reply = if cycle == 1 { vec![0x80, 0x20] } else { status_reply() };
        session = session.advance(Event::Reply(reply));
    }
    assert_eq!(session.state(), SessionState::Finalizing);
    assert_eq!(session.pending(), Action::Close);
    assert_eq!(session.outcome(), None);
    let (session, action) = session.step(Event::Done);
    assert_eq!(action, Action::Finish(Ok(())));
    assert_eq!(session.state(), SessionState::Closed);
    assert_eq!(session.outcome(), Some(Ok(())));
    assert_eq!(session.sent(), 15);
    let (session, action) = session.step(Event::Failed);
    assert_eq!(action, Action::Finish(Ok(())));
    assert_eq!(session.outcome(), Some(Ok(())));
}

#[test]
fn session_fails_when_the_device_does_not_open() {
    let session = PrinterSession::new(some_lines(1), &Settings { dpi_600: false });
    let (session, action) = session.step(Event::Failed);
    assert_eq!(action, Action::Finish(Err(PrinterBotError::DeviceFailure)));
    assert_eq!(session.state(), SessionState::Closed);
    assert_eq!(session.sent(), 0);
}

#[test]
fn session_closes_after_a_failed_write() {
    let session = PrinterSession::new(some_lines(1), &Settings { dpi_600: false });
    let (session, _) = session.step(Event::Done);
    let (session, action) = session.step(Event::Done);
    assert_eq!(action, Action::Send(PrinterCommand::Initialize));
    let (session, action) = session.step(Event::Failed);
    assert_eq!(action, Action::Close);
    assert_eq!(session.outcome(), None);
    assert_eq!(session.state(), SessionState::Opened);
    let (session, action) = session.step(Event::Done);
    assert_eq!(action, Action::Finish(Err(PrinterBotError::DeviceFailure)));
    assert_eq!(session.outcome(), Some(Err(PrinterBotError::DeviceFailure)));
}

#[test]
fn session_aborts_on_a_short_status() {
    let mut session = PrinterSession::new(some_lines(3), &Settings { dpi_600: false });
    for _ in 0..4 {
        session = session.advance(Event::Done);
    }
    assert_eq!(session.pending(), Action::ReadStatus);
    let (session, action) = session.step(Event::Reply(vec![0x80; 31]));
    assert_eq!(action, Action::Close);
    let (session, action) = session.step(Event::Done);
    assert_eq!(action, Action::Finish(Err(PrinterBotError::ProtocolTruncated)));
    assert_eq!(session.sent(), 3);
}

#[test]
fn session_fails_on_a_read_error() {
    let mut session = PrinterSession::new(some_lines(3), &Settings { dpi_600: false });
    for _ in 0..4 {
        session = session.advance(Event::Done);
    }
    let (session, action) = session.step(Event::Failed);
    assert_eq!(action, Action::Close);
    let (_, action) = session.step(Event::Done);
    assert_eq!(action, Action::Finish(Err(PrinterBotError::DeviceFailure)));
}

#[test]
fn session_takes_a_wrong_event_as_a_failure() {
    let session = PrinterSession::new(some_lines(1), &Settings { dpi_600: false });
    let (session, _) = session.step(Event::Done);
    // a reply where a write was pending
    let (session, action) = session.step(Event::Reply(status_reply()));
    assert_eq!(action, Action::Close);
    let (_, action) = session.step(Event::Done);
    assert_eq!(action, Action::Finish(Err(PrinterBotError::DeviceFailure)));
}

#[test]
fn successful_job_sends_the_commands_in_order() {
    for dpi_600 in [false, true] {
        let lines = some_lines(5);
        let replies = vec![status_reply(), status_reply(), status_reply(), status_reply()];
        let mut device = ScriptedDevice::new(true, u64::MAX, replies);
        let outcome = print_lines(lines.clone(), &Settings { dpi_600 }, &mut device);
        assert_eq!(outcome, Ok(()));
        assert_eq!(device.received(), &bytes_of(&job_commands(status(), &lines, dpi_600)));
        assert!(!device.is_open());
        assert_eq!(device.replies_left(), 0);
        assert_eq!(device.budget(), u64::MAX - 18);
    }
}

#[test]
fn order_does_not_depend_on_the_status() {
    let lines = some_lines(2);
    let mut other = status_reply();
    other[10] = 29;
    other[11] = 0x0B;
    other[17] = 90;
    let other_status = decode_status(&other).unwrap();
    let mut device = ScriptedDevice::new(true, 100, vec![other]);
    assert_eq!(print_lines(lines.clone(), &Settings { dpi_600: false }, &mut device), Ok(()));
    let expected = job_commands(other_status, &lines, false);
    assert_eq!(device.received(), &bytes_of(&expected));
    let with_first = job_commands(status(), &lines, false);
    for k in 0..expected.len() {
        assert_eq!(expected[k] == with_first[k], k != 4);
    }
}

#[test]
fn job_without_lines_is_still_a_job() {
    let mut device = ScriptedDevice::new(true, 13, vec![status_reply()]);
    assert_eq!(print_lines(Vec::new(), &Settings { dpi_600: true }, &mut device), Ok(()));
    assert_eq!(device.received(), &bytes_of(&job_commands(status(), &[], true)));
    assert_eq!(device.budget(), 0);
}

#[test]
fn absent_device_fails_the_job() {
    let mut device = ScriptedDevice::new(false, 100, vec![status_reply()]);
    let outcome = print_lines(some_lines(2), &Settings { dpi_600: false }, &mut device);
    assert_eq!(outcome, Err(PrinterBotError::DeviceFailure));
    assert!(device.received().is_empty());
    assert_eq!(device.replies_left(), 1);
    assert_eq!(device.budget(), 100);
}

#[test]
fn short_status_aborts_before_print_information() {
    for reply in [vec![], vec![0x80u8; 31]] {
        let mut device = ScriptedDevice::new(true, 100, vec![reply, status_reply()]);
        let outcome = print_lines(some_lines(2), &Settings { dpi_600: false }, &mut device);
        assert_eq!(outcome, Err(PrinterBotError::ProtocolTruncated));
        let expected = bytes_of(&[
            PrinterCommand::Reset,
            PrinterCommand::Initialize,
            PrinterCommand::StatusInfoRequest,
        ]);
        assert_eq!(device.received(), &expected);
        assert!(!device.is_open());
        assert_eq!(device.replies_left(), 1);
    }
}

#[test]
fn silent_printer_is_a_truncated_status() {
    let mut device = ScriptedDevice::new(true, 100, vec![]);
    let outcome = print_lines(some_lines(2), &Settings { dpi_600: false }, &mut device);
    assert_eq!(outcome, Err(PrinterBotError::ProtocolTruncated));
    assert_eq!(device.received().len(), 205);
}

#[test]
fn failed_write_aborts_the_job() {
    let lines = some_lines(4);
    let all = job_commands(status(), &lines, false);
    for budget in 0..17u64 {
        let mut device = ScriptedDevice::new(true, budget, vec![status_reply()]);
        let outcome = print_lines(lines.clone(), &Settings { dpi_600: false }, &mut device);
        assert_eq!(outcome, Err(PrinterBotError::DeviceFailure), "budget {}", budget);
        assert_eq!(device.received(), &bytes_of(&all[..budget as usize]));
        assert!(!device.is_open());
        assert_eq!(device.budget(), 0);
    }
    let mut device = ScriptedDevice::new(true, 17, vec![status_reply()]);
    assert_eq!(print_lines(lines.clone(), &Settings { dpi_600: false }, &mut device), Ok(()));
}

#[test]
fn late_timeouts_do_not_fail_the_job() {
    let lines = some_lines(1);
    let mut device = ScriptedDevice::new(true, 100, vec![status_reply(), vec![], vec![0x80; 5]]);
    assert_eq!(print_lines(lines.clone(), &Settings { dpi_600: false }, &mut device), Ok(()));
    assert_eq!(device.received(), &bytes_of(&job_commands(status(), &lines, false)));
    assert_eq!(device.replies_left(), 0);
}

#[test]
fn late_fault_fails_the_job() {
    let lines = some_lines(1);
    let all = job_commands(status(), &lines, false);
    for at in 1..=3usize {
        let mut replies = vec![status_reply(); 4];
        replies[at] = fault_reply();
        let mut device = ScriptedDevice::new(true, 100, replies);
        let outcome = print_lines(lines.clone(), &Settings { dpi_600: false }, &mut device);
        assert_eq!(outcome, Err(PrinterBotError::DeviceFailure));
        assert_eq!(device.received(), &bytes_of(&all[..11 + at]));
        assert_eq!(device.replies_left(), 3 - at);
        assert!(!device.is_open());
    }
}

#[test]
fn fault_in_the_first_status_does_not_stop_the_job() {
    let lines = some_lines(1);
    let first = decode_status(&fault_reply()).unwrap();
    let mut device = ScriptedDevice::new(true, 100, vec![fault_reply()]);
    assert_eq!(print_lines(lines.clone(), &Settings { dpi_600: false }, &mut device), Ok(()));
    assert_eq!(device.received(), &bytes_of(&job_commands(first, &lines, false)));
}

#[test]
fn jobs_follow_one_another_on_the_device() {
    let first = some_lines(3);
    let second = some_lines(2);
    let mut device = ScriptedDevice::new(true, 1000, vec![status_reply(); 8]);
    assert_eq!(print_lines(first.clone(), &Settings { dpi_600: false }, &mut device), Ok(()));
    assert_eq!(print_lines(second.clone(), &Settings { dpi_600: true }, &mut device), Ok(()));
    let mut expected = bytes_of(&job_commands(status(), &first, false));
    let first_len = expected.len();
    expected.extend_from_slice(&bytes_of(&job_commands(status(), &second, true)));
    assert_eq!(device.received(), &expected);
    // the second job's reset follows the first job's last status request
    assert_eq!(&device.received()[first_len - 3..first_len], &[0x1B, 0x69, 0x53]);
    assert_eq!(&device.received()[first_len..first_len + 200], &[0u8; 200][..]);
}

#[test]
fn invalid_image_sends_nothing() {
    let image = RgbaImage::from_raw(100, 200, vec![255; 100 * 200 * 4]).unwrap();
    let settings = Settings { dpi_600: false };
    let mut device = ScriptedDevice::new(true, u64::MAX, vec![status_reply(); 4]);
    let outcome = match render_image(&image, &settings) {
        Ok(lines) => print_lines(lines, &settings, &mut device),
        Err(e) => Err(e),
    };
    assert_eq!(outcome, Err(PrinterBotError::InvalidImage));
    assert!(device.received().is_empty());
    assert!(!device.is_open());
}

#[test]
fn rendered_image_prints_on_a_willing_printer() {
    let image = RgbaImage::from_raw(720, 36, vec![255; 720 * 36 * 4]).unwrap();
    let settings = Settings { dpi_600: false };
    let lines = render_image(&image, &settings).unwrap();
    let mut device = ScriptedDevice::new(true, u64::MAX, vec![status_reply(); 4]);
    assert_eq!(print_lines(lines, &settings, &mut device), Ok(()));
    // 200 + 2 + 3 + 4 + 13 + 4 + 4 + 4 + 5 + 36 * 93 + 1 + 3 * 3
    assert_eq!(device.received().len(), 3597);
    assert_eq!(&device.received()[209..222], &encode(&PrinterCommand::SetPrintInformation(status(), 36))[..]);
}

#[test]
fn errors_have_their_messages() {
    assert_eq!(PrinterBotError::InvalidImage.message(), "invalid image");
    assert_eq!(PrinterBotError::DecodeFailure.message(), "image error");
    assert_eq!(PrinterBotError::DeviceFailure.message(), "io error");
    assert_eq!(PrinterBotError::WorkerFailure.message(), "thread panic");
    assert_eq!(PrinterBotError::ProtocolTruncated.message(), "status reply truncated");
    assert!(PrinterBotError::InvalidImage.is_user_correctable());
    assert!(!PrinterBotError::DecodeFailure.is_user_correctable());
    assert!(!PrinterBotError::DeviceFailure.is_user_correctable());
    assert!(!PrinterBotError::WorkerFailure.is_user_correctable());
    assert!(!PrinterBotError::ProtocolTruncated.is_user_correctable());
}
