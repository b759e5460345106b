//! The closed error vocabulary and the classification of I/O and codec failures.
use vstd::prelude::*;
use vstd::string::*;
use std::io::ErrorKind;
use image::error::{UnsupportedError, UnsupportedErrorKind};
use image::ImageError;

verus! {

/// Every failure the converter reports.
#[derive(Debug)]
pub enum ImcoError {
    /// Reason, path.
    FailedFileRead(String, String),
    /// Reason, path.
    FailedFileWrite(String, String),
    InvalidBatching,
    /// The unrecognised token or path.
    InvalidFormat(String),
    NoDestFormat,
    /// Path, hint.
    Decoding(String, String),
    /// Path, hint.
    Encoding(String, String),
    /// Path, hint.
    Unsupported(String, String),
    InternalConversionError(String),
    ResourceLimitReached(String),
    /// Reason, pattern.
    BatchPattern(String, String),
    BatchReadEntry(String),
}

/// `ImcoError` with its strings seen as character sequences.
pub enum ErrorView {
    FailedFileRead(Seq<char>, Seq<char>),
    FailedFileWrite(Seq<char>, Seq<char>),
    InvalidBatching,
    InvalidFormat(Seq<char>),
    NoDestFormat,
    Decoding(Seq<char>, Seq<char>),
    Encoding(Seq<char>, Seq<char>),
    Unsupported(Seq<char>, Seq<char>),
    InternalConversionError(Seq<char>),
    ResourceLimitReached(Seq<char>),
    BatchPattern(Seq<char>, Seq<char>),
    BatchReadEntry(Seq<char>),
}

impl View for ImcoError {
    type V = ErrorView;

    open spec fn view(&self) -> ErrorView {
        match self {
            ImcoError::FailedFileRead(r, p) => ErrorView::FailedFileRead(r@, p@),
            ImcoError::FailedFileWrite(r, p) => ErrorView::FailedFileWrite(r@, p@),
            ImcoError::InvalidBatching => ErrorView::InvalidBatching,
            ImcoError::InvalidFormat(t) => ErrorView::InvalidFormat(t@),
            ImcoError::NoDestFormat => ErrorView::NoDestFormat,
            ImcoError::Decoding(p, h) => ErrorView::Decoding(p@, h@),
            ImcoError::Encoding(p, h) => ErrorView::Encoding(p@, h@),
            ImcoError::Unsupported(p, h) => ErrorView::Unsupported(p@, h@),
            ImcoError::InternalConversionError(p) => ErrorView::InternalConversionError(p@),
            ImcoError::ResourceLimitReached(p) => ErrorView::ResourceLimitReached(p@),
            ImcoError::BatchPattern(r, p) => ErrorView::BatchPattern(r@, p@),
            ImcoError::BatchReadEntry(r) => ErrorView::BatchReadEntry(r@),
        }
    }
}

/// The one-line message shown to the user for an error.
pub open spec fn message_of(e: ErrorView) -> Seq<char> {
    match e {
        ErrorView::FailedFileRead(c, p) => "Failed reading '"@ + p + "' => "@ + c,
        ErrorView::FailedFileWrite(c, p) => "Failed writing '"@ + p + "' => "@ + c,
        ErrorView::InvalidFormat(t) => "Unknown format "@ + t + ", use --help for a list"@,
        ErrorView::InvalidBatching =>
            "Batching is only allowed when specifying an output format (using --output-format)"@,
        ErrorView::NoDestFormat => "No output format provided (use --output-format)"@,
        ErrorView::Decoding(p, h) => "Error during decoding of '"@ + p + "' => "@ + h,
        ErrorView::Encoding(p, h) => "Error during encoding of '"@ + p + "' => "@ + h,
        ErrorView::Unsupported(p, h) => h + " during conversion of '"@ + p + "'"@,
        ErrorView::InternalConversionError(p) =>
            "Internal error during conversion of '"@ + p + "'"@,
        ErrorView::ResourceLimitReached(p) =>
            "Exceeded resource limitation during conversion of '"@ + p + "'"@,
        ErrorView::BatchPattern(c, pat) =>
            "Failed to collect files using glob, '"@ + pat + "' => "@ + c,
        ErrorView::BatchReadEntry(c) => "Failed to read directory entry using glob => "@ + c,
    }
}

fn joined3(a: &str, b: &str, c: &str) -> (r: String)
    ensures
        r@ == a@ + b@ + c@,
{
    let mut s = String::from_str(a);
    s.append(b);
    s.append(c);
    s
}

fn joined4(a: &str, b: &str, c: &str, d: &str) -> (r: String)
    ensures
        r@ == a@ + b@ + c@ + d@,
{
    let mut s = joined3(a, b, c);
    s.append(d);
    s
}

impl ImcoError {
    /// The human-readable message for this error.
    pub fn message(&self) -> (r: String)
        ensures
            r@ == message_of(self@),
    {
        match self {
            ImcoError::FailedFileRead(c, p) => joined4("Failed reading '", p, "' => ", c),
            ImcoError::FailedFileWrite(c, p) => joined4("Failed writing '", p, "' => ", c),
            ImcoError::InvalidFormat(t) => joined3("Unknown format ", t, ", use --help for a list"),
            ImcoError::InvalidBatching => String::from_str(
                "Batching is only allowed when specifying an output format (using --output-format)",
            ),
            ImcoError::NoDestFormat => String::from_str(
                "No output format provided (use --output-format)",
            ),
            ImcoError::Decoding(p, h) => joined4("Error during decoding of '", p, "' => ", h),
            ImcoError::Encoding(p, h) => joined4("Error during encoding of '", p, "' => ", h),
            ImcoError::Unsupported(p, h) => joined4(h, " during conversion of '", p, "'"),
            ImcoError::InternalConversionError(p) => joined3(
                "Internal error during conversion of '",
                p,
                "'",
            ),
            ImcoError::ResourceLimitReached(p) => joined3(
                "Exceeded resource limitation during conversion of '",
                p,
                "'",
            ),
            ImcoError::BatchPattern(c, pat) => joined4(
                "Failed to collect files using glob, '",
                pat,
                "' => ",
                c,
            ),
            ImcoError::BatchReadEntry(c) => {
                let mut s = String::from_str("Failed to read directory entry using glob => ");
                s.append(c);
                s
            },
        }
    }
}

/// Declares `std::io::Error`, carried through unopened.
#[verifier::external_type_specification]
#[verifier::external_body]
pub struct ExIoError(std::io::Error);

/// Declares `image::ImageError`, carried through unopened.
#[verifier::external_type_specification]
#[verifier::external_body]
pub struct ExImageError(ImageError);

/// Declares `image::error::UnsupportedError`, carried through unopened.
#[verifier::external_type_specification]
#[verifier::external_body]
pub struct ExUnsupportedError(UnsupportedError);

/// The kinds of I/O failure that get a reason of their own.
#[derive(Debug, Clone, Copy, PartialEq, Eq, Structural)]
pub enum IoKind {
    NotFound,
    PermissionDenied,
    AlreadyExists,
    NotADirectory,
    IsADirectory,
    StorageFull,
    FileTooLarge,
    Other,
}

/// The fixed reason text of an I/O failure kind.
pub open spec fn reason_of(k: IoKind) -> Seq<char> {
    match k {
        IoKind::NotFound => "Not found"@,
        IoKind::PermissionDenied => "Permission denied"@,
        IoKind::AlreadyExists => "Already exists"@,
        IoKind::NotADirectory => "Is not a directory"@,
        IoKind::IsADirectory => "Is a directory"@,
        IoKind::StorageFull => "Storage is full"@,
        IoKind::FileTooLarge => "File is too large"@,
        IoKind::Other => "Unknown (unhandled)"@,
    }
}

/// The error for an I/O failure of kind `k` on `path`, reading or writing.
pub open spec fn io_failure(k: IoKind, path: Seq<char>, is_read: bool) -> ErrorView {
    if is_read {
        ErrorView::FailedFileRead(reason_of(k), path)
    } else {
        ErrorView::FailedFileWrite(reason_of(k), path)
    }
}

/// The kind, among `IoKind`'s, that `std::io::Error::kind` gives for an error.
pub uninterp spec fn io_kind_name(e: std::io::Error) -> IoKind;

/// Relies on `std::io::Error::kind`: which kind of failure the error records,
/// a function of the error alone.
#[verifier::external_body]
fn io_kind_of(e: &std::io::Error) -> (r: IoKind)
    ensures
        r == io_kind_name(*e),
{
    match e.kind() {
        ErrorKind::NotFound => IoKind::NotFound,
        ErrorKind::PermissionDenied => IoKind::PermissionDenied,
        ErrorKind::AlreadyExists => IoKind::AlreadyExists,
        ErrorKind::NotADirectory => IoKind::NotADirectory,
        ErrorKind::IsADirectory => IoKind::IsADirectory,
        ErrorKind::StorageFull => IoKind::StorageFull,
        ErrorKind::FileTooLarge => IoKind::FileTooLarge,
        _ => IoKind::Other,
    }
}

/// The reason text for an I/O failure kind.
pub fn reason_text(k: IoKind) -> (r: String)
    ensures
        r@ == reason_of(k),
{
    match k {
        IoKind::NotFound => String::from_str("Not found"),
        IoKind::PermissionDenied => String::from_str("Permission denied"),
        IoKind::AlreadyExists => String::from_str("Already exists"),
        IoKind::NotADirectory => String::from_str("Is not a directory"),
        IoKind::IsADirectory => String::from_str("Is a directory"),
        IoKind::StorageFull => String::from_str("Storage is full"),
        IoKind::FileTooLarge => String::from_str("File is too large"),
        IoKind::Other => String::from_str("Unknown (unhandled)"),
    }
}

/// Classifies an I/O failure of kind `kind` on `path`.
pub fn classify_io(kind: IoKind, path: &str, is_read: bool) -> (r: ImcoError)
    ensures
        r@ == io_failure(kind, path@, is_read),
{
    let reason = reason_text(kind);
    if is_read {
        ImcoError::FailedFileRead(reason, String::from_str(path))
    } else {
        ImcoError::FailedFileWrite(reason, String::from_str(path))
    }
}

/// Passes a success through and classifies an I/O failure on `file_path`.
pub fn io_error_convert<T>(res: Result<T, std::io::Error>, file_path: &str, is_read: bool) -> (r:
    Result<T, ImcoError>)
    ensures
        res is Ok ==> r == Ok::<T, ImcoError>(res->Ok_0),
        res is Err ==> r is Err && r->Err_0@ == io_failure(
            io_kind_name(res->Err_0),
            file_path@,
            is_read,
        ),
{
    match res {
        Ok(v) => Ok(v),
        Err(e) => Err(classify_io(io_kind_of(&e), file_path, is_read)),
    }
}

/// What the codec reported as not supported, as plain text.
#[derive(Debug)]
pub enum UnsupportedKind {
    /// The colour type, as it prints for debugging.
    Color(String),
    /// The format hint, as it displays.
    Format(String),
    GenericFeature(String),
    Other,
}

/// The hint shown for an unsupported request.
pub open spec fn hint_of(k: UnsupportedKind) -> Seq<char> {
    match k {
        UnsupportedKind::Color(c) => "Unsupported color ("@ + c@ + ")"@,
        UnsupportedKind::Format(f) => "Unsupported or not allowed image format ("@ + f@ + ")"@,
        UnsupportedKind::GenericFeature(g) => g@,
        UnsupportedKind::Other => "Other"@,
    }
}

/// What `unsupported_kind_of` renders for an unsupported-request error.
pub uninterp spec fn unsupported_kind_name(u: UnsupportedError) -> UnsupportedKind;

/// Relies on `UnsupportedError::kind`, with `Debug` of the colour type and
/// `Display` of the format hint, to render what was not supported; the
/// result depends on the error alone.
#[verifier::external_body]
fn unsupported_kind_of(u: &UnsupportedError) -> (r: UnsupportedKind)
    ensures
        r == unsupported_kind_name(*u),
{
    match u.kind() {
        UnsupportedErrorKind::Color(c) => UnsupportedKind::Color(format!("{:?}", c)),
        UnsupportedErrorKind::Format(f) => UnsupportedKind::Format(f.to_string()),
        UnsupportedErrorKind::GenericFeature(g) => UnsupportedKind::GenericFeature(g),
        _ => UnsupportedKind::Other,
    }
}

/// The hint text for an unsupported request.
pub fn unsupported_hint(k: &UnsupportedKind) -> (r: String)
    ensures
        r@ == hint_of(*k),
{
    match k {
        UnsupportedKind::Color(c) => joined3("Unsupported color (", c, ")"),
        UnsupportedKind::Format(f) => joined3("Unsupported or not allowed image format (", f, ")"),
        UnsupportedKind::GenericFeature(g) => String::from_str(g),
        UnsupportedKind::Other => String::from_str("Other"),
    }
}

/// The hint text for a codec's unsupported-request error.
pub fn mk_unsupported_str(u: UnsupportedError) -> (r: String)
    ensures
        r@ == hint_of(unsupported_kind_name(u)),
{
    let k = unsupported_kind_of(&u);
    unsupported_hint(&k)
}

/// A codec failure, taken apart into what classification reads.
pub enum CodecFault {
    /// The decoder's description.
    Decoding(String),
    /// The encoder's description.
    Encoding(String),
    Parameter,
    Limits,
    Unsupported(UnsupportedError),
    Io(std::io::Error),
}

/// What `codec_fault_of` takes an `ImageError` apart into.
pub uninterp spec fn codec_fault_name(e: ImageError) -> CodecFault;

/// Relies on `ImageError`'s variants, and on `Display` of its decoding and
/// encoding errors for their descriptions; the result depends on the error
/// alone.
#[verifier::external_body]
fn codec_fault_of(e: ImageError) -> (r: CodecFault)
    ensures
        r == codec_fault_name(e),
{
    match e {
        ImageError::Decoding(d) => CodecFault::Decoding(d.to_string()),
        ImageError::Encoding(d) => CodecFault::Encoding(d.to_string()),
        ImageError::Parameter(_) => CodecFault::Parameter,
        ImageError::Limits(_) => CodecFault::Limits,
        ImageError::Unsupported(u) => CodecFault::Unsupported(u),
        ImageError::IoError(x) => CodecFault::Io(x),
    }
}

/// The error a codec failure on `path` becomes; an I/O failure counts as a
/// read or a write failure as `is_read` says.
pub open spec fn codec_error(f: CodecFault, path: Seq<char>, is_read: bool) -> ErrorView {
    match f {
        CodecFault::Decoding(h) => ErrorView::Decoding(path, h@),
        CodecFault::Encoding(h) => ErrorView::Encoding(path, h@),
        CodecFault::Parameter => ErrorView::InternalConversionError(path),
        CodecFault::Limits => ErrorView::ResourceLimitReached(path),
        CodecFault::Unsupported(u) => ErrorView::Unsupported(path, hint_of(unsupported_kind_name(u))),
        CodecFault::Io(x) => io_failure(io_kind_name(x), path, is_read),
    }
}

/// Classifies a codec failure on `path`, met while reading the input
/// (`is_read`) or while writing the output.
pub fn classify_codec(f: CodecFault, path: String, is_read: bool) -> (r: ImcoError)
    ensures
        r@ == codec_error(f, path@, is_read),
{
    match f {
        CodecFault::Decoding(h) => ImcoError::Decoding(path, h),
        CodecFault::Encoding(h) => ImcoError::Encoding(path, h),
        CodecFault::Parameter => ImcoError::InternalConversionError(path),
        CodecFault::Limits => ImcoError::ResourceLimitReached(path),
        CodecFault::Unsupported(u) => ImcoError::Unsupported(path, mk_unsupported_str(u)),
        CodecFault::Io(x) => classify_io(io_kind_of(&x), path.as_str(), is_read),
    }
}

/// Passes a success through and classifies a codec failure on `img_path`,
/// met while decoding the input (`is_read`) or encoding the output.
pub fn image_err_convert<T>(res: Result<T, ImageError>, img_path: String, is_read: bool) -> (r:
    Result<T, ImcoError>)
    ensures
        res is Ok ==> r == Ok::<T, ImcoError>(res->Ok_0),
        res is Err ==> r is Err && r->Err_0@ == codec_error(
            codec_fault_name(res->Err_0),
            img_path@,
            is_read,
        ),
{
    match res {
        Ok(v) => Ok(v),
        Err(e) => Err(classify_codec(codec_fault_of(e), img_path, is_read)),
    }
}

} // verus!
