//! Validation of order-chat file attachments: allowed extensions, MIME types,
//! PDF header check, and PNG / JPEG pixel dimensions.
use vstd::prelude::*;
use crate::blossom::BLOSSOM_MAX_BLOB_SIZE;
use crate::text::{append_chars, append_str, ascii_lower, ascii_lowercase, chars_eq_str, chars_of, decimal, string_of, u64_decimal};

verus! {

/// Classifies an attachment for the `file_type` of encrypted-file messages.
#[derive(Clone, Copy, Debug, PartialEq, Eq, Structural)]
pub enum AttachmentFileClass {
    Image,
    Video,
    Document,
}

/// Validated file ready for encryption and upload.
pub struct ValidatedAttachment {
    pub data: Vec<u8>,
    pub filename: String,
    pub mime_type: String,
    pub file_class: AttachmentFileClass,
    /// PNG/JPEG pixel width (0 for non-images).
    pub image_width: u32,
    /// PNG/JPEG pixel height (0 for non-images).
    pub image_height: u32,
}

/// Extensions allowed for attachment upload (lower case).
pub open spec fn allowed_extension(e: Seq<char>) -> bool {
    ||| e == "jpg"@
    ||| e == "jpeg"@
    ||| e == "png"@
    ||| e == "pdf"@
    ||| e == "mp4"@
    ||| e == "mov"@
    ||| e == "avi"@
    ||| e == "doc"@
    ||| e == "docx"@
}

/// Whether a lower-case extension is on the allow list.
pub fn extension_allowed(ext: &str) -> (r: bool)
    ensures
        r == allowed_extension(ext@),
{
    let e = chars_of(ext);
    chars_eq_str(&e, "jpg") || chars_eq_str(&e, "jpeg") || chars_eq_str(&e, "png")
        || chars_eq_str(&e, "pdf") || chars_eq_str(&e, "mp4") || chars_eq_str(&e, "mov")
        || chars_eq_str(&e, "avi") || chars_eq_str(&e, "doc") || chars_eq_str(&e, "docx")
}

/// True when the path is a directory, or its extension (case-insensitively) is allowed.
pub fn attachment_extension_allowed(is_dir: bool, extension: Option<&str>) -> (r: bool)
    ensures
        r == (is_dir || match extension {
            Some(e) => allowed_extension(ascii_lower(e@)),
            None => false,
        }),
{
    if is_dir {
        return true;
    }
    match extension {
        Some(e) => {
            let lower = string_of(&ascii_lowercase(&chars_of(e)));
            extension_allowed(lower.as_str())
        },
        None => false,
    }
}

pub open spec fn file_class_of(e: Seq<char>) -> AttachmentFileClass {
    if e == "jpg"@ || e == "jpeg"@ || e == "png"@ {
        AttachmentFileClass::Image
    } else if e == "mp4"@ || e == "mov"@ || e == "avi"@ {
        AttachmentFileClass::Video
    } else {
        AttachmentFileClass::Document
    }
}

/// File class for a lower-case extension.
pub fn classify_extension(ext: &str) -> (r: AttachmentFileClass)
    ensures
        r == file_class_of(ext@),
{
    let e = chars_of(ext);
    if chars_eq_str(&e, "jpg") || chars_eq_str(&e, "jpeg") || chars_eq_str(&e, "png") {
        AttachmentFileClass::Image
    } else if chars_eq_str(&e, "mp4") || chars_eq_str(&e, "mov") || chars_eq_str(&e, "avi") {
        AttachmentFileClass::Video
    } else {
        AttachmentFileClass::Document
    }
}

pub open spec fn mime_of(e: Seq<char>) -> Seq<char> {
    if e == "jpg"@ || e == "jpeg"@ {
        "image/jpeg"@
    } else if e == "png"@ {
        "image/png"@
    } else if e == "pdf"@ {
        "application/pdf"@
    } else if e == "mp4"@ {
        "video/mp4"@
    } else if e == "mov"@ {
        "video/quicktime"@
    } else if e == "avi"@ {
        "video/x-msvideo"@
    } else if e == "doc"@ {
        "application/msword"@
    } else if e == "docx"@ {
        "application/vnd.openxmlformats-officedocument.wordprocessingml.document"@
    } else {
        "application/octet-stream"@
    }
}

/// MIME type for a lower-case extension.
pub fn mime_type_for_extension(ext: &str) -> (r: &'static str)
    ensures
        r@ == mime_of(ext@),
{
    let e = chars_of(ext);
    if chars_eq_str(&e, "jpg") || chars_eq_str(&e, "jpeg") {
        "image/jpeg"
    } else if chars_eq_str(&e, "png") {
        "image/png"
    } else if chars_eq_str(&e, "pdf") {
        "application/pdf"
    } else if chars_eq_str(&e, "mp4") {
        "video/mp4"
    } else if chars_eq_str(&e, "mov") {
        "video/quicktime"
    } else if chars_eq_str(&e, "avi") {
        "video/x-msvideo"
    } else if chars_eq_str(&e, "doc") {
        "application/msword"
    } else if chars_eq_str(&e, "docx") {
        "application/vnd.openxmlformats-officedocument.wordprocessingml.document"
    } else {
        "application/octet-stream"
    }
}

/// Whether the bytes start with the PDF signature `%PDF-`.
pub open spec fn is_pdf(data: Seq<u8>) -> bool {
    data.len() >= 5 && data[0] == 0x25 && data[1] == 0x50 && data[2] == 0x44 && data[3] == 0x46
        && data[4] == 0x2d
}

/// Checks the `%PDF-` signature.
pub fn validate_pdf_header(data: &[u8]) -> (r: bool)
    ensures
        r == is_pdf(data@),
{
    data.len() >= 5 && data[0] == 0x25 && data[1] == 0x50 && data[2] == 0x44 && data[3] == 0x46
        && data[4] == 0x2d
}

pub open spec fn be16(a: u8, b: u8) -> nat {
    (a as nat) * 256 + (b as nat)
}

pub open spec fn be32(a: u8, b: u8, c: u8, d: u8) -> nat {
    ((((a as nat) * 256 + (b as nat)) * 256 + (c as nat)) * 256) + (d as nat)
}

pub open spec fn is_png(data: Seq<u8>) -> bool {
    data.len() >= 24 && data[0] == 0x89 && data[1] == 0x50 && data[2] == 0x4e && data[3] == 0x47
        && data[4] == 0x0d && data[5] == 0x0a && data[6] == 0x1a && data[7] == 0x0a
}

/// JPEG start-of-frame markers that carry the frame size.
pub open spec fn is_sof_marker(m: u8) -> bool {
    m == 0xc0 || m == 0xc1 || m == 0xc2 || m == 0xc3 || m == 0xc5 || m == 0xc6 || m == 0xc7 || m
        == 0xc9 || m == 0xca || m == 0xcb
}

/// Scan JPEG segments from offset `i` for the first start-of-frame with a non-zero size.
pub open spec fn jpeg_scan(data: Seq<u8>, i: int) -> Option<(u32, u32)>
    decreases data.len() - i,
{
    if !(0 <= i && i + 9 < data.len()) {
        None
    } else if data[i] != 0xff {
        jpeg_scan(data, i + 1)
    } else {
        let marker = data[i + 1];
        let seg_len = be16(data[i + 2], data[i + 3]);
        if marker == 0xd9 {
            None
        } else if seg_len < 2 || i + 2 + seg_len > data.len() {
            None
        } else if is_sof_marker(marker) && seg_len >= 7 && be16(data[i + 7], data[i + 8]) > 0
            && be16(data[i + 5], data[i + 6]) > 0 {
            Some((be16(data[i + 7], data[i + 8]) as u32, be16(data[i + 5], data[i + 6]) as u32))
        } else {
            jpeg_scan(data, i + 2 + seg_len)
        }
    }
}

/// PNG `IHDR` or JPEG start-of-frame dimensions `(width, height)`.
pub open spec fn image_dimensions(data: Seq<u8>) -> Option<(u32, u32)> {
    let w = be32(data[16], data[17], data[18], data[19]);
    let h = be32(data[20], data[21], data[22], data[23]);
    if is_png(data) && w > 0 && h > 0 {
        Some((w as u32, h as u32))
    } else if data.len() >= 4 && data[0] == 0xff && data[1] == 0xd8 {
        jpeg_scan(data, 2)
    } else {
        None
    }
}

fn be32_at(data: &[u8], i: usize) -> (r: u32)
    requires
        i + 4 <= data@.len(),
    ensures
        r as nat == be32(data@[i as int], data@[i + 1], data@[i + 2], data@[i + 3]),
{
    (data[i] as u32) * 16777216 + (data[i + 1] as u32) * 65536 + (data[i + 2] as u32) * 256
        + (data[i + 3] as u32)
}

fn be16_at(data: &[u8], i: usize) -> (r: usize)
    requires
        i + 2 <= data@.len(),
    ensures
        r as nat == be16(data@[i as int], data@[i + 1]),
        r <= 65535,
{
    (data[i] as usize) * 256 + (data[i + 1] as usize)
}

/// Reads PNG `IHDR` or JPEG start-of-frame dimensions.
pub fn read_image_dimensions(data: &[u8]) -> (r: Option<(u32, u32)>)
    ensures
        r == image_dimensions(data@),
{
    let n = data.len();
    if n >= 24 && data[0] == 0x89 && data[1] == 0x50 && data[2] == 0x4e && data[3] == 0x47
        && data[4] == 0x0d && data[5] == 0x0a && data[6] == 0x1a && data[7] == 0x0a {
        let w = be32_at(data, 16);
        let h = be32_at(data, 20);
        if w > 0 && h > 0 {
            return Some((w, h));
        }
    }
    if !(n >= 4 && data[0] == 0xff && data[1] == 0xd8) {
        return None;
    }
    let mut i: usize = 2;
    while n > 9 && i < n - 9
        invariant
            n == data@.len(),
            2 <= i,
            jpeg_scan(data@, i as int) == jpeg_scan(data@, 2),
            image_dimensions(data@) == jpeg_scan(data@, 2),
        decreases n - i,
    {
        if data[i] != 0xff {
            i = i + 1;
        } else {
            let marker = data[i + 1];
            let seg_len = be16_at(data, i + 2);
            if marker == 0xd9 {
                return None;
            }
            if seg_len < 2 || seg_len > n - i - 2 {
                return None;
            }
            if (marker == 0xc0 || marker == 0xc1 || marker == 0xc2 || marker == 0xc3 || marker
                == 0xc5 || marker == 0xc6 || marker == 0xc7 || marker == 0xc9 || marker == 0xca
                || marker == 0xcb) && seg_len >= 7 {
                let h = be16_at(data, i + 5);
                let w = be16_at(data, i + 7);
                if w > 0 && h > 0 {
                    return Some((w as u32, h as u32));
                }
            }
            i = i + 2 + seg_len;
        }
    }
    None
}

/// Why an attachment was refused.
#[derive(Debug, Clone, PartialEq, Eq)]
pub enum AttachmentError {
    /// The path has no usable file name.
    InvalidPath,
    /// The file name has no extension.
    NoExtension,
    /// The (lower-cased) extension is not on the allow list.
    Unsupported(String),
    /// The file is empty.
    Empty,
    /// The file is larger than the Blossom limit (its size is given).
    TooLarge(usize),
    /// A `.pdf` file without the PDF signature.
    NotPdf,
    /// An image whose PNG/JPEG dimensions cannot be read.
    NoImageDimensions,
}

/// The error text shown for a refused attachment.
pub open spec fn attachment_error_text(e: AttachmentError) -> Seq<char> {
    match e {
        AttachmentError::InvalidPath => "Invalid file path"@,
        AttachmentError::NoExtension => "File has no extension"@,
        AttachmentError::Unsupported(ext) => "Unsupported file type (."@ + ext@
            + "). Allowed: jpg, jpeg, png, pdf, mp4, mov, avi, doc, docx"@,
        AttachmentError::Empty => "File is empty"@,
        AttachmentError::TooLarge(n) => "File too large: "@ + decimal(n as nat) + " bytes (max 25 MB)"@,
        AttachmentError::NotPdf => "File does not look like a valid PDF"@,
        AttachmentError::NoImageDimensions =>
            "Could not read image dimensions (PNG/JPEG required for mobile compatibility)"@,
    }
}

impl AttachmentError {
    /// The error text.
    pub fn message(&self) -> (r: String)
        ensures
            r@ == attachment_error_text(*self),
    {
        let mut v: Vec<char> = Vec::new();
        match self {
            AttachmentError::InvalidPath => append_str(&mut v, "Invalid file path"),
            AttachmentError::NoExtension => append_str(&mut v, "File has no extension"),
            AttachmentError::Unsupported(ext) => {
                append_str(&mut v, "Unsupported file type (.");
                append_str(&mut v, ext.as_str());
                append_str(&mut v, "). Allowed: jpg, jpeg, png, pdf, mp4, mov, avi, doc, docx");
            },
            AttachmentError::Empty => append_str(&mut v, "File is empty"),
            AttachmentError::TooLarge(n) => {
                append_str(&mut v, "File too large: ");
                append_chars(&mut v, &u64_decimal(*n as u64));
                append_str(&mut v, " bytes (max 25 MB)");
            },
            AttachmentError::NotPdf => append_str(&mut v, "File does not look like a valid PDF"),
            AttachmentError::NoImageDimensions => append_str(
                &mut v,
                "Could not read image dimensions (PNG/JPEG required for mobile compatibility)",
            ),
        }
        string_of(&v)
    }
}

/// The file name and lower-cased extension of an upload candidate, checked before reading.
pub fn check_attachment_name(file_name: Option<&str>, extension: Option<&str>) -> (r: Result<
    (String, String),
    AttachmentError,
>)
    ensures
        file_name is None ==> r == Err::<(String, String), AttachmentError>(
            AttachmentError::InvalidPath,
        ),
        file_name is Some && extension is None ==> r == Err::<(String, String), AttachmentError>(
            AttachmentError::NoExtension,
        ),
        (file_name is Some && extension is Some) ==> (if allowed_extension(
            ascii_lower(extension.unwrap()@),
        ) {
            r matches Ok(p) && p.0@ == file_name.unwrap()@ && p.1@ == ascii_lower(
                extension.unwrap()@,
            )
        } else {
            r matches Err(AttachmentError::Unsupported(x)) && x@ == ascii_lower(
                extension.unwrap()@,
            )
        }),
{
    let name = match file_name {
        Some(f) => f,
        None => return Err(AttachmentError::InvalidPath),
    };
    let ext = match extension {
        Some(e) => string_of(&ascii_lowercase(&chars_of(e))),
        None => return Err(AttachmentError::NoExtension),
    };
    if !extension_allowed(ext.as_str()) {
        return Err(AttachmentError::Unsupported(ext));
    }
    Ok((string_of(&chars_of(name)), ext))
}

/// Content checks for an upload whose name passed [`check_attachment_name`]: non-empty,
/// within the Blossom size limit, a PDF signature for `.pdf`, and readable dimensions
/// for images.
pub fn validate_attachment_data(filename: String, ext: &str, data: Vec<u8>) -> (r: Result<
    ValidatedAttachment,
    AttachmentError,
>)
    ensures
        data@.len() == 0 ==> r == Err::<ValidatedAttachment, AttachmentError>(AttachmentError::Empty),
        data@.len() > BLOSSOM_MAX_BLOB_SIZE ==> r == Err::<ValidatedAttachment, AttachmentError>(
            AttachmentError::TooLarge(data@.len() as usize),
        ),
        0 < data@.len() <= BLOSSOM_MAX_BLOB_SIZE && file_class_of(ext@)
            == AttachmentFileClass::Document && ext@ == "pdf"@ && !is_pdf(data@) ==> r == Err::<
            ValidatedAttachment,
            AttachmentError,
        >(AttachmentError::NotPdf),
        0 < data@.len() <= BLOSSOM_MAX_BLOB_SIZE && file_class_of(ext@) == AttachmentFileClass::Image
            && image_dimensions(data@) is None ==> r == Err::<ValidatedAttachment, AttachmentError>(
            AttachmentError::NoImageDimensions,
        ),
        r matches Ok(v) ==> v.data@ == data@ && v.filename == filename && v.mime_type@ == mime_of(
            ext@,
        ) && v.file_class == file_class_of(ext@) && 0 < data@.len() <= BLOSSOM_MAX_BLOB_SIZE && (
        (v.file_class == AttachmentFileClass::Document && ext@ == "pdf"@) ==> is_pdf(data@)) && (if v.file_class == AttachmentFileClass::Image {
            image_dimensions(data@) == Some((v.image_width, v.image_height))
        } else {
            v.image_width == 0 && v.image_height == 0
        }),
        0 < data@.len() <= BLOSSOM_MAX_BLOB_SIZE && ((file_class_of(ext@)
            == AttachmentFileClass::Document && ext@ == "pdf"@) ==> is_pdf(data@)) && (
        file_class_of(ext@) == AttachmentFileClass::Image ==> image_dimensions(data@) is Some)
            ==> r is Ok,
{
    if data.len() == 0 {
        return Err(AttachmentError::Empty);
    }
    if data.len() > BLOSSOM_MAX_BLOB_SIZE {
        return Err(AttachmentError::TooLarge(data.len()));
    }
    let file_class = classify_extension(ext);
    let mime_type = string_of(&chars_of(mime_type_for_extension(ext)));
    let e = chars_of(ext);
    if file_class == AttachmentFileClass::Document && chars_eq_str(&e, "pdf") {
        if !validate_pdf_header(data.as_slice()) {
            return Err(AttachmentError::NotPdf);
        }
    }
    let (image_width, image_height) = if file_class == AttachmentFileClass::Image {
        match read_image_dimensions(data.as_slice()) {
            Some(d) => d,
            None => return Err(AttachmentError::NoImageDimensions),
        }
    } else {
        (0, 0)
    };
    Ok(ValidatedAttachment { data, filename, mime_type, file_class, image_width, image_height })
}

} // verus!
