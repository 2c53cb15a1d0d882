use label_printer::access::{screen, screen_candidate, Admission};
use label_printer::coordinator::{storage_path, worker_outcome, PRINTED_FILES_DIR};
use label_printer::error::PrinterBotError;
use label_printer::imaging::decode;
use label_printer::intake::{
    extension_for, extract_photo_from_message, request_of_document, request_of_photo,
    request_of_text, widest_photo, Document, Intake, Message, PhotoSize, Request, Sticker,
    ANIMATED_STICKER_NOTICE, NOT_AN_IMAGE_NOTICE, QR_USAGE_NOTICE,
};
use label_printer::qr::{
    generate_qr_code, has_png_signature, print_correction, ErrorCorrection, QR_SIDE,
};
use label_printer::ratelimit::{
    shortest_exceeded, usage_report, verdict_for, MultiRateLimiter, Window,
};
use label_printer::render::dithered_preview;
use label_printer::text::{joined, same_text};

fn photo(id: &str, width: u32) -> PhotoSize {
    PhotoSize { file_id: id.to_string(), width }
}

fn empty_message() -> Message {
    Message { photo: None, sticker: None, document: None, text: None }
}

fn print(id: &str, extension: &str) -> Request {
    Request::Print { file_id: id.to_string(), extension: extension.to_string() }
}

#[test]
fn widest_photo_is_the_last_of_the_widest() {
    assert_eq!(widest_photo(&vec![]), None);
    assert_eq!(widest_photo(&vec![photo("a", 90)]), Some(0));
    assert_eq!(widest_photo(&vec![photo("a", 90), photo("b", 320), photo("c", 800)]), Some(2));
    assert_eq!(widest_photo(&vec![photo("a", 800), photo("b", 320), photo("c", 90)]), Some(0));
    assert_eq!(widest_photo(&vec![photo("a", 800), photo("b", 800), photo("c", 90)]), Some(1));
    assert_eq!(widest_photo(&vec![photo("a", 0), photo("b", 0)]), Some(1));
}

#[test]
fn photo_is_printed_as_jpeg() {
    let mut message = empty_message();
    message.photo = Some(vec![photo("small", 90), photo("big", 1280), photo("mid", 320)]);
    message.text = Some("/qr ignored".to_string());
    assert_eq!(
        extract_photo_from_message(&message),
        Intake { animated_sticker: false, request: print("big", "jpg") }
    );
    assert_eq!(request_of_photo(&vec![photo("only", 1)]), print("only", "jpg"));
    assert_eq!(request_of_photo(&vec![]), Request::Nothing);
}

#[test]
fn photo_without_sizes_is_passed_over() {
    let mut message = empty_message();
    message.photo = Some(vec![]);
    message.sticker = Some(Sticker { file_id: "st".to_string(), is_static: true });
    assert_eq!(
        extract_photo_from_message(&message),
        Intake { animated_sticker: false, request: print("st", "webp") }
    );
}

#[test]
fn still_sticker_is_printed_as_webp() {
    let mut message = empty_message();
    message.sticker = Some(Sticker { file_id: "st".to_string(), is_static: true });
    message.document =
        Some(Document { file_id: "doc".to_string(), mime_type: Some("image/png".to_string()) });
    assert_eq!(
        extract_photo_from_message(&message),
        Intake { animated_sticker: false, request: print("st", "webp") }
    );
}

#[test]
fn animated_sticker_is_refused_and_the_rest_is_read() {
    let mut message = empty_message();
    message.sticker = Some(Sticker { file_id: "st".to_string(), is_static: false });
    assert_eq!(
        extract_photo_from_message(&message),
        Intake { animated_sticker: true, request: Request::Nothing }
    );
    message.document =
        Some(Document { file_id: "doc".to_string(), mime_type: Some("image/gif".to_string()) });
    assert_eq!(
        extract_photo_from_message(&message),
        Intake { animated_sticker: true, request: print("doc", "gif") }
    );
    assert_eq!(ANIMATED_STICKER_NOTICE, "Can't print animated stickers");
}

#[test]
fn documents_are_printed_by_media_type() {
    let cases = [
        ("image/jpeg", "jpg"),
        ("image/png", "png"),
        ("image/gif", "gif"),
        ("image/webp", "webp"),
        ("image/tiff", "tiff"),
        ("image/bmp", "bmp"),
    ];
    for (mime, extension) in cases {
        assert_eq!(extension_for(mime), Some(extension.to_string()));
        let document = Document { file_id: "doc".to_string(), mime_type: Some(mime.to_string()) };
        assert_eq!(request_of_document(&document), print("doc", extension));
    }
    for mime in ["application/pdf", "image/svg+xml", "IMAGE/PNG", "image/png ", ""] {
        assert_eq!(extension_for(mime), None);
        let document = Document { file_id: "doc".to_string(), mime_type: Some(mime.to_string()) };
        assert_eq!(request_of_document(&document), Request::NotAnImage);
    }
    let untyped = Document { file_id: "doc".to_string(), mime_type: None };
    assert_eq!(request_of_document(&untyped), Request::Nothing);
    // a document decides even where a text follows
    let mut message = empty_message();
    message.document = Some(untyped);
    message.text = Some("/qr hello".to_string());
    assert_eq!(extract_photo_from_message(&message).request, Request::Nothing);
}

#[test]
fn qr_command_is_read_from_the_text() {
    assert_eq!(request_of_text("/qr https://example.com"), Request::QrCode("https://example.com".to_string()));
    assert_eq!(request_of_text("/qr  two spaces"), Request::QrCode(" two spaces".to_string()));
    assert_eq!(request_of_text("/qr ä€😀"), Request::QrCode("ä€😀".to_string()));
    assert_eq!(request_of_text("/qr "), Request::QrUsage);
    assert_eq!(request_of_text("/qr"), Request::Nothing);
    assert_eq!(request_of_text("/qrx"), Request::Nothing);
    assert_eq!(request_of_text("/QR hello"), Request::Nothing);
    assert_eq!(request_of_text(" /qr hello"), Request::Nothing);
    assert_eq!(request_of_text("hello"), Request::Nothing);
    assert_eq!(request_of_text(""), Request::Nothing);
    assert_eq!(request_of_text("äöü"), Request::Nothing);
    let mut message = empty_message();
    message.text = Some("/qr 38C3".to_string());
    assert_eq!(
        extract_photo_from_message(&message),
        Intake { animated_sticker: false, request: Request::QrCode("38C3".to_string()) }
    );
    assert_eq!(extract_photo_from_message(&empty_message()).request, Request::Nothing);
}

#[test]
fn refusals_have_their_notices() {
    assert_eq!(Request::NotAnImage.notice(), Some(NOT_AN_IMAGE_NOTICE));
    assert_eq!(Request::QrUsage.notice(), Some(QR_USAGE_NOTICE));
    assert_eq!(Request::Nothing.notice(), None);
    assert_eq!(print("a", "jpg").notice(), None);
    assert_eq!(Request::QrCode("x".to_string()).notice(), None);
    assert_eq!(NOT_AN_IMAGE_NOTICE, "Can't print documents that are not images");
    assert_eq!(QR_USAGE_NOTICE, "Usage: /qr <content>\nExample: /qr https://example.com");
}

#[test]
fn owner_and_known_senders_go_on() {
    assert_eq!(screen(true, false, None, "38C3"), Admission::Proceed);
    assert_eq!(screen(true, false, Some("whatever"), "38C3"), Admission::Proceed);
    assert_eq!(screen(false, true, Some("whatever"), "38C3"), Admission::Proceed);
    assert_eq!(screen(false, true, None, "38C3"), Admission::Proceed);
    assert_eq!(screen(true, true, Some("38C3"), "38C3"), Admission::Proceed);
}

#[test]
fn password_is_compared_trimmed_and_in_upper_case() {
    assert_eq!(screen(false, false, Some("38C3"), "38C3"), Admission::Grant);
    assert_eq!(screen(false, false, Some("  38c3\n"), "38C3"), Admission::Grant);
    assert_eq!(screen(false, false, Some("\t38c3 "), "38C3"), Admission::Grant);
    assert_eq!(screen(false, false, Some("38 c3"), "38C3"), Admission::AskForPassword);
    assert_eq!(screen(false, false, Some("37C3"), "38C3"), Admission::AskForPassword);
    assert_eq!(screen(false, false, Some(""), "38C3"), Admission::AskForPassword);
    // the password itself is taken as it is
    assert_eq!(screen(false, false, Some("secret"), "secret"), Admission::AskForPassword);
    assert_eq!(screen(false, false, Some("straße"), "STRASSE"), Admission::Grant);
    assert_eq!(screen(false, false, None, "38C3"), Admission::Greet);
}

#[test]
fn candidate_is_compared_as_it_is() {
    assert_eq!(screen_candidate(false, false, Some("38C3"), "38C3"), Admission::Grant);
    assert_eq!(screen_candidate(false, false, Some("38c3"), "38C3"), Admission::AskForPassword);
    assert_eq!(screen_candidate(false, false, Some(" 38C3"), "38C3"), Admission::AskForPassword);
    assert_eq!(screen_candidate(false, false, None, "38C3"), Admission::Greet);
    assert_eq!(screen_candidate(false, true, None, "38C3"), Admission::Proceed);
}

#[test]
fn texts_are_compared_and_joined() {
    assert!(same_text("abc", "abc"));
    assert!(same_text("", ""));
    assert!(!same_text("abc", "abd"));
    assert!(!same_text("abc", "abcd"));
    assert_eq!(joined("ab", "cd"), "abcd");
    assert_eq!(joined("", "ü"), "ü");
}

#[test]
fn worker_outcome_tells_a_crash_from_a_device_failure() {
    assert_eq!(worker_outcome(Some(Ok(()))), Ok(()));
    assert_eq!(
        worker_outcome(Some(Err(PrinterBotError::DeviceFailure))),
        Err(PrinterBotError::DeviceFailure)
    );
    assert_eq!(
        worker_outcome(Some(Err(PrinterBotError::ProtocolTruncated))),
        Err(PrinterBotError::ProtocolTruncated)
    );
    assert_eq!(worker_outcome(None), Err(PrinterBotError::WorkerFailure));
    assert_ne!(worker_outcome(None), Err(PrinterBotError::DeviceFailure));
}

#[test]
fn files_are_stored_under_their_id() {
    assert_eq!(PRINTED_FILES_DIR, "/home/sticker/printed-files/");
    assert_eq!(storage_path("AgAD123", "jpg"), "/home/sticker/printed-files/AgAD123.jpg");
    assert_eq!(storage_path("", ""), "/home/sticker/printed-files/.");
}

#[test]
fn windows_have_their_limits() {
    assert_eq!(Window::FiveMinutes.threshold(), 5);
    assert_eq!(Window::FiveMinutes.seconds(), 300);
    assert_eq!(Window::Hour.threshold(), 15);
    assert_eq!(Window::Hour.seconds(), 3600);
    assert_eq!(Window::Day.threshold(), 30);
    assert_eq!(Window::Day.seconds(), 86400);
    assert_eq!(Window::FiveMinutes.refusal(), "5-minute rate limit exceeded");
    assert_eq!(Window::Hour.refusal(), "Hourly rate limit exceeded");
    assert_eq!(Window::Day.refusal(), "Daily rate limit exceeded");
}

#[test]
fn shortest_exceeded_window_refuses() {
    assert_eq!(shortest_exceeded(false, false, false), None);
    assert_eq!(shortest_exceeded(true, false, false), Some(Window::FiveMinutes));
    assert_eq!(shortest_exceeded(true, true, true), Some(Window::FiveMinutes));
    assert_eq!(shortest_exceeded(false, true, false), Some(Window::Hour));
    assert_eq!(shortest_exceeded(false, true, true), Some(Window::Hour));
    assert_eq!(shortest_exceeded(false, false, true), Some(Window::Day));
    assert_eq!(verdict_for(None), Ok(()));
    assert_eq!(verdict_for(Some(Window::Hour)), Err("Hourly rate limit exceeded".to_string()));
    assert_eq!(verdict_for(Some(Window::Day)), Err("Daily rate limit exceeded".to_string()));
}

#[test]
fn first_exceeded_names_the_five_minute_window() {
    let limiter = MultiRateLimiter::new();
    for _ in 0..5 {
        assert_eq!(limiter.first_exceeded("carol"), None);
    }
    assert_eq!(limiter.first_exceeded("carol"), Some(Window::FiveMinutes));
    assert_eq!(limiter.first_exceeded("dave"), None);
}

#[test]
fn sixth_print_in_five_minutes_is_refused() {
    let limiter = MultiRateLimiter::new();
    for _ in 0..5 {
        assert_eq!(limiter.check_rate_limit("alice"), Ok(()));
    }
    assert_eq!(
        limiter.check_rate_limit("alice"),
        Err("5-minute rate limit exceeded".to_string())
    );
    assert_eq!(
        limiter.check_rate_limit("alice"),
        Err("5-minute rate limit exceeded".to_string())
    );
    // another sender has a count of their own
    assert_eq!(limiter.check_rate_limit("bob"), Ok(()));
}

#[test]
fn usage_is_reported_for_the_three_windows() {
    assert_eq!(usage_report("a", "b", "c"), "5min: a, 1hour: b, 1day: c");
    assert_eq!(usage_report("", "", ""), "5min: , 1hour: , 1day: ");
    let limiter = MultiRateLimiter::new();
    let before = limiter.get_usage("alice");
    assert!(before.starts_with("5min: "));
    assert!(before.contains(", 1hour: "));
    assert!(before.contains(", 1day: "));
    assert_eq!(limiter.check_rate_limit("alice"), Ok(()));
    let after = limiter.get_usage("alice");
    assert!(after.starts_with("5min: "));
    assert_ne!(before, after);
}

#[test]
fn qr_code_is_a_png_of_the_side() {
    assert_eq!(QR_SIDE, 1024);
    assert_eq!(print_correction(), ErrorCorrection::Low);
    let png = generate_qr_code("https://example.com").expect("fits a code");
    assert_eq!(&png[..4], &[137, 80, 78, 71]);
    let picture = decode(&png).expect("a png");
    assert_eq!(picture.width(), 1024);
    assert_eq!(picture.height(), 1024);
    let samples = picture.samples();
    // the margin is white, and some module is black
    assert_eq!(&samples[..4], &[255, 255, 255, 255]);
    assert!(samples.chunks(4).any(|p| p[0] == 0 && p[1] == 0 && p[2] == 0));
    assert_eq!(generate_qr_code("https://example.com"), Ok(png.clone()));
    assert_ne!(generate_qr_code("https://example.org"), Ok(png));
}

#[test]
fn text_too_long_for_a_code_fails() {
    let long = "x".repeat(5000);
    assert_eq!(generate_qr_code(&long), Err(PrinterBotError::QrCodeGen));
    assert_eq!(PrinterBotError::QrCodeGen.message(), "qrcode generator fail");
}

#[test]
fn preview_shows_black_and_white() {
    let samples = dithered_preview(&[0, 1, 1, 0, 0, 1], 3, 2);
    assert_eq!(
        samples,
        vec![
            0, 0, 0, 255, 255, 255, 255, 255, 255, 255, 255, 255, //
            0, 0, 0, 255, 0, 0, 0, 255, 255, 255, 255, 255,
        ]
    );
    // pixel (x, y) shows index y * width + x
    let width = 3usize;
    for y in 0..2 {
        for x in 0..3 {
            let at = 4 * (y * width + x);
            let v = 255 * [0u8, 1, 1, 0, 0, 1][y * width + x];
            assert_eq!(&samples[at..at + 4], &[v, v, v, 255]);
        }
    }
}

#[test]
fn preview_reads_no_more_indices_than_pixels() {
    // three indices for a picture of one by two pixels: the third is not read
    assert_eq!(dithered_preview(&[1, 0, 1], 1, 2), vec![255, 255, 255, 255, 0, 0, 0, 255]);
    // nor is an index after the last pixel held to be 0 or 1
    assert_eq!(dithered_preview(&[0, 1, 7, 200], 2, 1), vec![0, 0, 0, 255, 255, 255, 255, 255]);
    assert_eq!(dithered_preview(&[0, 1], 2, 1), vec![0, 0, 0, 255, 255, 255, 255, 255]);
}

#[test]
fn preview_of_no_pixels_is_empty() {
    assert_eq!(dithered_preview(&[], 0, 0), Vec::<u8>::new());
    assert_eq!(dithered_preview(&[], 4, 0), Vec::<u8>::new());
    assert_eq!(dithered_preview(&[1, 1, 9], 0, 5), Vec::<u8>::new());
}

#[test]
fn png_signature_is_recognised() {
    assert!(has_png_signature(&[137, 80, 78, 71]));
    assert!(has_png_signature(&[137, 80, 78, 71, 13, 10, 26, 10, 0]));
    assert!(!has_png_signature(&[137, 80, 78]));
    assert!(!has_png_signature(&[]));
    assert!(!has_png_signature(&[137, 80, 78, 70]));
    assert!(!has_png_signature(&[0, 137, 80, 78, 71]));
    assert!(!has_png_signature(b"GIF89a"));
    assert!(has_png_signature(&generate_qr_code("hello").unwrap()));
}
