//! The file upload preview: which files are previewed as images, which decoder an image
//! thumbnail needs, which unit a file size is shown in, and the modal that confirms an
//! upload.
use vstd::prelude::*;

use crate::text::{owned, str_eq};

verus! {

/// The image formats the preview tells apart.
#[derive(Clone, Copy, PartialEq, Eq, Structural, Debug)]
pub enum ImageFormat {
    Png,
    Jpeg,
    /// An image format the preview cannot decode.
    Other,
}

/// The PNG signature.
pub open spec fn png_signature() -> Seq<u8> {
    seq![0x89u8, 0x50u8, 0x4Eu8, 0x47u8, 0x0Du8, 0x0Au8, 0x1Au8, 0x0Au8]
}

/// The RIFF container tag.
pub open spec fn riff_tag() -> Seq<u8> {
    seq![0x52u8, 0x49u8, 0x46u8, 0x46u8]
}

/// Whether `b` starts with the PNG signature.
pub open spec fn starts_png(b: Seq<u8>) -> bool {
    b.len() >= 8 && b.subrange(0, 8) == png_signature()
}

/// Whether `b` carries a JPEG marker (`JFIF` or `Exif`) in its bytes six to nine.
pub open spec fn has_jpeg_marker(b: Seq<u8>) -> bool {
    &&& b.len() >= 10
    &&& (b.subrange(6, 10) == seq![0x4Au8, 0x46u8, 0x49u8, 0x46u8] || b.subrange(6, 10)
        == seq![0x45u8, 0x78u8, 0x69u8, 0x66u8])
}

/// The inputs on which the format guess of the image library returns: those it can
/// look at without reading past the end (it reads up to twelve bytes).
pub open spec fn guess_is_total(b: Seq<u8>) -> bool {
    ||| b.len() >= 12
    ||| starts_png(b)
    ||| b.len() >= 10 && b.subrange(0, 4) != riff_tag()
}

/// Whether the format guess returns on `bytes` (see [`guess_is_total`]).
pub fn guess_is_total_for(bytes: &[u8]) -> (r: bool)
    ensures
        r == guess_is_total(bytes@),
{
    let n = bytes.len();
    if n >= 12 {
        return true;
    }
    let png = n >= 8 && bytes[0] == 0x89u8 && bytes[1] == 0x50u8 && bytes[2] == 0x4Eu8
        && bytes[3] == 0x47u8 && bytes[4] == 0x0Du8 && bytes[5] == 0x0Au8 && bytes[6] == 0x1Au8
        && bytes[7] == 0x0Au8;
    proof {
        if n >= 8 {
            assert(png == (bytes@.subrange(0, 8) =~= png_signature()));
        }
    }
    if png {
        return true;
    }
    let riff = n >= 4 && bytes[0] == 0x52u8 && bytes[1] == 0x49u8 && bytes[2] == 0x46u8
        && bytes[3] == 0x46u8;
    proof {
        if n >= 4 {
            assert(riff == (bytes@.subrange(0, 4) =~= riff_tag()));
        }
    }
    n >= 10 && !riff
}

/// What `imghdr::from_bytes` guesses for the bytes `b`: PNG, JPEG, another image
/// format, or none.
pub uninterp spec fn image_format_guess(b: Seq<u8>) -> Option<ImageFormat>;

/// Guesses the format of an image from its first bytes.
///
/// Calls `imghdr::from_bytes`, which compares the first bytes with the signatures of
/// about twenty formats, PNG first, JPEG second. Its result is named, not restated; the
/// contract also states those first two checks: bytes starting with the PNG signature
/// are PNG, and other bytes with a JPEG marker at offset six are JPEG.
#[verifier::external_body]
fn guess_image_format(bytes: &[u8]) -> (r: Option<ImageFormat>)
    requires
        guess_is_total(bytes@),
    ensures
        r == image_format_guess(bytes@),
        starts_png(bytes@) ==> r == Some(ImageFormat::Png),
        !starts_png(bytes@) && has_jpeg_marker(bytes@) ==> r == Some(ImageFormat::Jpeg),
{
    match imghdr::from_bytes(bytes) {
        Some(imghdr::Type::Png) => Some(ImageFormat::Png),
        Some(imghdr::Type::Jpeg) => Some(ImageFormat::Jpeg),
        Some(_) => Some(ImageFormat::Other),
        None => None,
    }
}

/// The decoder an image thumbnail needs: PNG or JPEG, or `None` when the format is
/// another or unknown and the thumbnail is not shown.
pub fn thumbnail_decoder(bytes: &[u8]) -> (r: Option<ImageFormat>)
    requires
        guess_is_total(bytes@),
    ensures
        match image_format_guess(bytes@) {
            Some(ImageFormat::Png) => r == Some(ImageFormat::Png),
            Some(ImageFormat::Jpeg) => r == Some(ImageFormat::Jpeg),
            _ => r is None,
        },
        starts_png(bytes@) ==> r == Some(ImageFormat::Png),
        !starts_png(bytes@) && has_jpeg_marker(bytes@) ==> r == Some(ImageFormat::Jpeg),
{
    match guess_image_format(bytes) {
        Some(ImageFormat::Png) => Some(ImageFormat::Png),
        Some(ImageFormat::Jpeg) => Some(ImageFormat::Jpeg),
        _ => None,
    }
}

/// How the upload preview shows a file.
#[derive(Clone, Copy, PartialEq, Eq, Structural, Debug)]
pub enum FileType {
    Image,
    Document,
}

/// How a file whose MIME type has the top-level type `mime_type` is previewed: images
/// as images, anything else as a document.
pub fn file_type_for(mime_type: &str) -> (r: FileType)
    ensures
        mime_type@ == "image"@ ==> r == FileType::Image,
        mime_type@ != "image"@ ==> r == FileType::Document,
{
    if str_eq(mime_type, "image") {
        FileType::Image
    } else {
        FileType::Document
    }
}

/// The unit a file size is shown in.
#[derive(Clone, Copy, PartialEq, Eq, Structural, Debug)]
pub enum SizeUnit {
    Bytes,
    KB,
    MB,
    GB,
}

/// The number of bytes in one `unit` (powers of 1024).
pub open spec fn unit_bytes(unit: SizeUnit) -> u64 {
    match unit {
        SizeUnit::Bytes => 1,
        SizeUnit::KB => 1024,
        SizeUnit::MB => 1048576,
        SizeUnit::GB => 1073741824,
    }
}

/// The unit a size of `bytes` is shown in: the largest of GB, MB and KB that the size
/// reaches, or plain bytes below one KB.
pub open spec fn spec_size_unit(bytes: u64) -> SizeUnit {
    if bytes >= 1073741824 {
        SizeUnit::GB
    } else if bytes >= 1048576 {
        SizeUnit::MB
    } else if bytes >= 1024 {
        SizeUnit::KB
    } else {
        SizeUnit::Bytes
    }
}

/// The unit a file size is shown in, with the number of bytes in that unit.
pub fn size_unit(bytes: u64) -> (r: (SizeUnit, u64))
    ensures
        r.0 == spec_size_unit(bytes),
        r.1 == unit_bytes(r.0),
{
    let kb: u64 = 1024;
    let mb: u64 = kb * 1024;
    let gb: u64 = mb * 1024;
    if bytes >= gb {
        (SizeUnit::GB, gb)
    } else if bytes >= mb {
        (SizeUnit::MB, mb)
    } else if bytes >= kb {
        (SizeUnit::KB, kb)
    } else {
        (SizeUnit::Bytes, 1)
    }
}

/// Metadata about a file being previewed or uploaded.
pub struct FilePreviewerMetaData {
    /// The file's MIME type, such as `image/png`.
    pub mime: String,
    /// The top-level type of the MIME type, such as `image`.
    pub mime_type: String,
    /// Size of the file in bytes.
    pub file_size: u64,
    /// Path to the file on the local filesystem.
    pub file_path: String,
    /// The last component of the path, when it has one that is valid text.
    pub file_name: Option<String>,
}

/// A thumbnail of an image file: its encoded bytes, their MIME type, and the image's
/// size.
pub struct Thumbnail {
    pub data: Vec<u8>,
    pub content_type: String,
    pub width: u64,
    pub height: u64,
    pub size: u64,
}

/// Data loaded from a file in the background, before it is tied to a timeline.
pub struct FileLoadedData {
    /// Metadata about the file (path, size, MIME type).
    pub metadata: FilePreviewerMetaData,
    /// Optional thumbnail for image files.
    pub thumbnail: Option<Thumbnail>,
    /// Optional dimensions for image/video files, width and height in pixels.
    pub dimensions: Option<(u64, u64)>,
}

/// Data for a file to be uploaded, with the channel (`S`) that tells the timeline it
/// belongs to when the upload is confirmed.
pub struct FileData<S> {
    /// Metadata about the file (path, size, MIME type).
    pub metadata: FilePreviewerMetaData,
    /// Optional thumbnail for image files.
    pub thumbnail: Option<Thumbnail>,
    /// Optional dimensions for image/video files, width and height in pixels.
    pub dimensions: Option<(u64, u64)>,
    /// The sender to notify the timeline when upload is confirmed.
    pub timeline_update_sender: S,
}

impl<S> FileData<S> {
    /// Ties loaded file data to the timeline that `timeline_update_sender` reaches.
    pub fn new(loaded: FileLoadedData, timeline_update_sender: S) -> (r: Self)
        ensures
            r.metadata == loaded.metadata,
            r.thumbnail == loaded.thumbnail,
            r.dimensions == loaded.dimensions,
            r.timeline_update_sender == timeline_update_sender,
    {
        FileData {
            metadata: loaded.metadata,
            thumbnail: loaded.thumbnail,
            dimensions: loaded.dimensions,
            timeline_update_sender,
        }
    }
}

/// Actions that show or hide the file upload modal.
pub enum FilePreviewerAction<S> {
    /// Display the modal with the given file data.
    Show(FileData<S>),
    /// Hide the modal.
    Hide,
    Nothing,
}

/// What the modal shows for a file: its name (or "Unknown file"), the unit of its size,
/// whether it is shown as an image or a document, and the decoder of the thumbnail it
/// shows, if any.
pub struct FilePreview {
    pub file_name: String,
    pub size_unit: SizeUnit,
    pub file_type: FileType,
    pub thumbnail_decoder: Option<ImageFormat>,
}

/// Whether the thumbnail of `d`, if it is shown, can have its format guessed.
pub open spec fn thumbnail_guessable<S>(d: FileData<S>) -> bool {
    d.metadata.mime_type@ == "image"@ ==> (d.thumbnail matches Some(t) ==> guess_is_total(
        t.data@,
    ))
}

/// The decoder the thumbnail `t` of a file shown as `file_type` needs, if it is shown.
pub open spec fn spec_preview_decoder(file_type: FileType, t: Option<Thumbnail>) -> Option<
    ImageFormat,
> {
    match t {
        Some(th) => if file_type == FileType::Image {
            match image_format_guess(th.data@) {
                Some(ImageFormat::Png) => Some(ImageFormat::Png),
                Some(ImageFormat::Jpeg) => Some(ImageFormat::Jpeg),
                _ => None,
            }
        } else {
            None
        },
        None => None,
    }
}

/// The modal that previews a file and confirms its upload.
pub struct FileUploadModal<S> {
    pub file_type: FileType,
    pub file_data: Option<FileData<S>>,
}

impl<S> FileUploadModal<S> {
    /// A hidden modal.
    pub fn new() -> (r: Self)
        ensures
            r.file_type == FileType::Document,
            r.file_data is None,
    {
        FileUploadModal { file_type: FileType::Document, file_data: None }
    }

    /// Shows the modal for a file: it is previewed as an image when its MIME type is an
    /// image type, and the file data is kept until the upload is confirmed or cancelled.
    pub fn show(&mut self, file_data: FileData<S>) -> (r: FilePreview)
        requires
            thumbnail_guessable(file_data),
        ensures
            final(self).file_type == (if file_data.metadata.mime_type@ == "image"@ {
                FileType::Image
            } else {
                FileType::Document
            }),
            r.file_type == final(self).file_type,
            final(self).file_data == Some(file_data),
            r.file_name@ == (match file_data.metadata.file_name {
                Some(n) => n@,
                None => "Unknown file"@,
            }),
            r.size_unit == spec_size_unit(file_data.metadata.file_size),
            r.thumbnail_decoder == spec_preview_decoder(r.file_type, file_data.thumbnail),
    {
        let file_type = file_type_for(file_data.metadata.mime_type.as_str());
        let file_name = match &file_data.metadata.file_name {
            Some(n) => n.clone(),
            None => owned("Unknown file"),
        };
        let (unit, _per_unit) = size_unit(file_data.metadata.file_size);
        let decoder = match &file_data.thumbnail {
            Some(t) => {
                if file_type == FileType::Image {
                    thumbnail_decoder(t.data.as_slice())
                } else {
                    None
                }
            },
            None => None,
        };
        self.file_type = file_type;
        self.file_data = Some(file_data);
        FilePreview { file_name, size_unit: unit, file_type, thumbnail_decoder: decoder }
    }

    /// Hides the modal and clears its state.
    pub fn hide_modal(&mut self)
        ensures
            final(self).file_data is None,
            final(self).file_type == FileType::Document,
    {
        self.file_data = None;
        self.file_type = FileType::Document;
    }

    /// The cancel button was clicked: the modal hides and reports it.
    pub fn cancel_clicked(&mut self) -> (r: FilePreviewerAction<S>)
        ensures
            final(self).file_data is None,
            final(self).file_type == FileType::Document,
            r is Hide,
    {
        self.hide_modal();
        FilePreviewerAction::Hide
    }

    /// The upload button was clicked: the kept file data, if any, is returned to be sent
    /// to its timeline as confirmed, and the modal hides.
    pub fn upload_clicked(&mut self) -> (r: (Option<FileData<S>>, FilePreviewerAction<S>))
        ensures
            r.0 == old(self).file_data,
            r.1 is Hide,
            final(self).file_data is None,
            final(self).file_type == FileType::Document,
    {
        let confirmed = self.file_data.take();
        self.hide_modal();
        (confirmed, FilePreviewerAction::Hide)
    }
}

} // verus!
