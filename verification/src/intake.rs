//! What an incoming chat message asks for: a file to print, a QR code to
//! make, or nothing, and what the sender is to be told.
//!
//! A message is looked at in a fixed order: photo, sticker, document, text.
//! The first of them that names a file decides.

use crate::text::same_text;
use vstd::prelude::*;

verus! {

/// One size of a photo that a message carries.
pub struct PhotoSize {
    /// The file that holds this size.
    pub file_id: String,
    /// Pixels across.
    pub width: u32,
}

/// A sticker that a message carries.
pub struct Sticker {
    /// The file that holds the sticker.
    pub file_id: String,
    /// Whether it is a still image, not an animation or a video.
    pub is_static: bool,
}

/// A document that a message carries.
pub struct Document {
    /// The file that holds the document.
    pub file_id: String,
    /// Its media type, where the sender's client gave one.
    pub mime_type: Option<String>,
}

/// The parts of a chat message that this library reads.
pub struct Message {
    /// The sizes of its photo.
    pub photo: Option<Vec<PhotoSize>>,
    /// Its sticker.
    pub sticker: Option<Sticker>,
    /// Its document.
    pub document: Option<Document>,
    /// Its text.
    pub text: Option<String>,
}

/// What a message asks for.
#[derive(Debug, PartialEq, Eq)]
pub enum Request {
    /// Print the file `file_id`, which is an image of the kind that
    /// `extension` names.
    Print { file_id: String, extension: String },
    /// Say that documents that are not images cannot be printed.
    NotAnImage,
    /// Say how the QR command is used.
    QrUsage,
    /// Make a QR code of this text, send it to the chat as a photo and
    /// print the photo that comes back.
    QrCode(String),
    /// Nothing.
    Nothing,
}

/// What a sender is told whose sticker is animated.
pub const ANIMATED_STICKER_NOTICE: &'static str = "Can't print animated stickers";

/// What a sender is told whose document is no image.
pub const NOT_AN_IMAGE_NOTICE: &'static str = "Can't print documents that are not images";

/// What a sender is told who gave the QR command nothing to encode.
pub const QR_USAGE_NOTICE: &'static str =
    "Usage: /qr <content>\nExample: /qr https://example.com";

impl Request {
    /// What the sender is told about the request, where it is a refusal.
    pub open spec fn notice_text(self) -> Option<Seq<char>> {
        match self {
            Request::NotAnImage => Some(NOT_AN_IMAGE_NOTICE@),
            Request::QrUsage => Some(QR_USAGE_NOTICE@),
            _ => None,
        }
    }

    /// What the sender is told about the request, where it is a refusal.
    pub fn notice(&self) -> (text: Option<&'static str>)
        ensures
            match text {
                Some(text) => self.notice_text() == Some(text@),
                None => self.notice_text() is None,
            },
    {
        match self {
            Request::NotAnImage => Some(NOT_AN_IMAGE_NOTICE),
            Request::QrUsage => Some(QR_USAGE_NOTICE),
            _ => None,
        }
    }
}

/// A request, with its texts as sequences of characters.
pub enum RequestView {
    /// Print a file.
    Print { file_id: Seq<char>, extension: Seq<char> },
    /// Refuse a document that is no image.
    NotAnImage,
    /// Say how the QR command is used.
    QrUsage,
    /// Make a QR code of a text.
    QrCode(Seq<char>),
    /// Nothing.
    Nothing,
}

impl View for Request {
    type V = RequestView;

    open spec fn view(&self) -> RequestView {
        match self {
            Request::Print { file_id, extension } => RequestView::Print {
                file_id: file_id@,
                extension: extension@,
            },
            Request::NotAnImage => RequestView::NotAnImage,
            Request::QrUsage => RequestView::QrUsage,
            Request::QrCode(content) => RequestView::QrCode(content@),
            Request::Nothing => RequestView::Nothing,
        }
    }
}

/// What is to be done about a message.
#[derive(Debug, PartialEq, Eq)]
pub struct Intake {
    /// Say first that animated stickers cannot be printed.
    pub animated_sticker: bool,
    /// What the message asks for.
    pub request: Request,
}

/// The index of the widest photo size; of several that are widest, the
/// last. Zero where there is none.
pub open spec fn widest(photos: Seq<PhotoSize>) -> int
    decreases photos.len(),
{
    if photos.len() <= 1 {
        0
    } else {
        let before = widest(photos.drop_last());
        if photos.last().width >= photos[before].width {
            photos.len() - 1
        } else {
            before
        }
    }
}

/// The widest photo size is a size of the photo, none is wider, and none
/// after it is as wide.
pub proof fn lemma_widest(photos: Seq<PhotoSize>)
    requires
        photos.len() > 0,
    ensures
        0 <= widest(photos) < photos.len(),
        forall|j: int|
            0 <= j < photos.len() ==> (#[trigger] photos[j]).width <= photos[widest(photos)].width,
        forall|j: int|
            widest(photos) < j < photos.len() ==> (#[trigger] photos[j]).width < photos[widest(
                photos,
            )].width,
    decreases photos.len(),
{
    if photos.len() > 1 {
        let front = photos.drop_last();
        lemma_widest(front);
        assert forall|j: int| 0 <= j < photos.len() implies (#[trigger] photos[j]).width
            <= photos[widest(photos)].width by {
            if j < front.len() {
                assert(front[j] == photos[j]);
            }
        }
        assert forall|j: int| widest(photos) < j < photos.len() implies (#[trigger] photos[j]).width
            < photos[widest(photos)].width by {
            if j < front.len() {
                assert(front[j] == photos[j]);
            }
        }
    }
}

/// What a photo asks for: its widest size printed as a JPEG, or nothing
/// where it has no size.
pub open spec fn photo_request(photos: Seq<PhotoSize>) -> RequestView {
    if photos.len() > 0 {
        RequestView::Print { file_id: photos[widest(photos)].file_id@, extension: "jpg"@ }
    } else {
        RequestView::Nothing
    }
}

/// The file extension of an image media type that can be printed.
pub open spec fn image_extension(mime_type: Seq<char>) -> Option<Seq<char>> {
    if mime_type == "image/jpeg"@ {
        Some("jpg"@)
    } else if mime_type == "image/png"@ {
        Some("png"@)
    } else if mime_type == "image/gif"@ {
        Some("gif"@)
    } else if mime_type == "image/webp"@ {
        Some("webp"@)
    } else if mime_type == "image/tiff"@ {
        Some("tiff"@)
    } else if mime_type == "image/bmp"@ {
        Some("bmp"@)
    } else {
        None
    }
}

/// Whether a text is the QR command: it begins with `/qr` and a space.
pub open spec fn is_qr_command(text: Seq<char>) -> bool {
    text.len() >= 4 && text.subrange(0, 4) == "/qr "@
}

/// What a text asks for.
pub open spec fn text_request(text: Seq<char>) -> RequestView {
    if !is_qr_command(text) {
        RequestView::Nothing
    } else if text.len() == 4 {
        RequestView::QrUsage
    } else {
        RequestView::QrCode(text.subrange(4, text.len() as int))
    }
}

/// What a document asks for.
pub open spec fn document_request(document: Document) -> RequestView {
    match document.mime_type {
        Some(mime_type) => match image_extension(mime_type@) {
            Some(extension) => RequestView::Print { file_id: document.file_id@, extension },
            None => RequestView::NotAnImage,
        },
        None => RequestView::Nothing,
    }
}

/// Whether the photo of a message decides: it has a photo with a size.
pub open spec fn has_photo(message: Message) -> bool {
    message.photo is Some && message.photo.unwrap()@.len() > 0
}

/// Whether the sticker of a message decides: it has a still sticker and
/// no photo.
pub open spec fn has_still_sticker(message: Message) -> bool {
    !has_photo(message) && message.sticker is Some && message.sticker.unwrap().is_static
}

/// Whether the sender is told that animated stickers cannot be printed.
pub open spec fn has_animated_sticker(message: Message) -> bool {
    !has_photo(message) && message.sticker is Some && !message.sticker.unwrap().is_static
}

/// What a message asks for: its widest photo as a JPEG; else its sticker,
/// if it is still, as WebP; else what its document asks for; else what
/// its text asks for.
pub open spec fn message_request(message: Message) -> RequestView {
    if has_photo(message) {
        photo_request(message.photo.unwrap()@)
    } else if has_still_sticker(message) {
        RequestView::Print { file_id: message.sticker.unwrap().file_id@, extension: "webp"@ }
    } else if message.document is Some {
        document_request(message.document.unwrap())
    } else if message.text is Some {
        text_request(message.text.unwrap()@)
    } else {
        RequestView::Nothing
    }
}

/// Finds the widest size of a photo; of several that are widest, the last.
pub fn widest_photo(photos: &Vec<PhotoSize>) -> (found: Option<usize>)
    ensures
        found is None <==> photos@.len() == 0,
        found is Some ==> found.unwrap() == widest(photos@) && found.unwrap() < photos@.len(),
{
    if photos.len() == 0 {
        return None;
    }
    let mut best: usize = 0;
    let mut i: usize = 1;
    assert(photos@.take(1).len() == 1);
    while i < photos.len()
        invariant
            1 <= i <= photos@.len(),
            best == widest(photos@.take(i as int)),
            best < i,
        decreases photos@.len() - i,
    {
        proof {
            let upto = photos@.take(i + 1);
            assert(upto.drop_last() =~= photos@.take(i as int));
            assert(upto.last() == photos@[i as int]);
            assert(upto[best as int] == photos@[best as int]);
        }
        if photos[i].width >= photos[best].width {
            best = i;
        }
        i += 1;
    }
    assert(photos@.take(photos@.len() as int) =~= photos@);
    Some(best)
}

/// Reads what a photo asks for. This is also what the photo of a QR code
/// asks for, once the chat has sent it back.
pub fn request_of_photo(photos: &Vec<PhotoSize>) -> (request: Request)
    ensures
        request@ == photo_request(photos@),
{
    match widest_photo(photos) {
        Some(biggest) => Request::Print {
            file_id: photos[biggest].file_id.clone(),
            extension: "jpg".to_owned(),
        },
        None => Request::Nothing,
    }
}

/// The file extension for an image media type, where it is one that can
/// be printed.
pub fn extension_for(mime_type: &str) -> (extension: Option<String>)
    ensures
        extension is Some <==> image_extension(mime_type@) is Some,
        extension is Some ==> extension.unwrap()@ == image_extension(mime_type@).unwrap(),
{
    if same_text(mime_type, "image/jpeg") {
        Some("jpg".to_owned())
    } else if same_text(mime_type, "image/png") {
        Some("png".to_owned())
    } else if same_text(mime_type, "image/gif") {
        Some("gif".to_owned())
    } else if same_text(mime_type, "image/webp") {
        Some("webp".to_owned())
    } else if same_text(mime_type, "image/tiff") {
        Some("tiff".to_owned())
    } else if same_text(mime_type, "image/bmp") {
        Some("bmp".to_owned())
    } else {
        None
    }
}

/// Reads what a text asks for: a QR code of what follows `/qr` and a
/// space, how the command is used where nothing follows, and nothing
/// where the text is no QR command.
pub fn request_of_text(text: &str) -> (request: Request)
    ensures
        request@ == text_request(text@),
{
    let len = text.unicode_len();
    if len < 4 {
        return Request::Nothing;
    }
    if !same_text(text.substring_char(0, 4), "/qr ") {
        return Request::Nothing;
    }
    if len == 4 {
        return Request::QrUsage;
    }
    Request::QrCode(text.substring_char(4, len).to_owned())
}

/// Reads what a document asks for: to be printed where its media type is
/// an image that can be printed, a refusal where it is another, and
/// nothing where it has none.
pub fn request_of_document(document: &Document) -> (request: Request)
    ensures
        request@ == document_request(*document),
{
    match &document.mime_type {
        Some(mime_type) => match extension_for(mime_type.as_str()) {
            Some(extension) => Request::Print { file_id: document.file_id.clone(), extension },
            None => Request::NotAnImage,
        },
        None => Request::Nothing,
    }
}

/// Reads what a message asks for and whether its sender is to be told
/// that animated stickers cannot be printed.
pub fn extract_photo_from_message(message: &Message) -> (intake: Intake)
    ensures
        intake.request@ == message_request(*message),
        intake.animated_sticker == has_animated_sticker(*message),
{
    if let Some(photos) = &message.photo {
        if photos.len() > 0 {
            return Intake { animated_sticker: false, request: request_of_photo(photos) };
        }
    }
    let mut animated_sticker = false;
    if let Some(sticker) = &message.sticker {
        if sticker.is_static {
            return Intake {
                animated_sticker: false,
                request: Request::Print {
                    file_id: sticker.file_id.clone(),
                    extension: "webp".to_owned(),
                },
            };
        }
        animated_sticker = true;
    }
    if let Some(document) = &message.document {
        return Intake { animated_sticker, request: request_of_document(document) };
    }
    if let Some(text) = &message.text {
        return Intake { animated_sticker, request: request_of_text(text.as_str()) };
    }
    Intake { animated_sticker, request: Request::Nothing }
}

} // verus!
