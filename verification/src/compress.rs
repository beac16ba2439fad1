//! Unwrapping of zip-packaged content: the first entry of an archive held in memory.

use std::io::Cursor;
use std::io::Read;
use vstd::prelude::*;
use vstd::string::*;
use zip::read::ZipArchive;
use zip::result::ZipError;

verus! {

/// `std::io::Cursor`, the reader that an archive in memory is opened over. Opaque.
#[verifier::external_type_specification]
#[verifier::external_body]
#[verifier::reject_recursive_types(T)]
pub struct ExCursor<T>(Cursor<T>);

/// `std::io::Error`, as reading an entry returns it. Opaque.
#[verifier::external_type_specification]
#[verifier::external_body]
pub struct ExIoError(std::io::Error);

/// `zip::read::ZipArchive`, an open archive. Opaque: `archive_entries` names what it
/// holds.
#[verifier::external_type_specification]
#[verifier::external_body]
#[verifier::reject_recursive_types(R)]
pub struct ExZipArchive<R>(ZipArchive<R>);

/// `zip::result::ZipError`, as opening an archive or an entry returns it. Opaque.
#[verifier::external_type_specification]
#[verifier::external_body]
pub struct ExZipError(ZipError);

/// What `zip::ZipArchive::new` makes of a byte buffer: `None` where it refuses the buffer,
/// otherwise the entries of the archive in index order, as `archive_entries` gives them.
pub uninterp spec fn zip_entries(data: Seq<u8>) -> Option<Seq<Option<Seq<u8>>>>;

/// The entries that an open archive holds, in index order: for each one the bytes that
/// reading it to the end yields, or `None` where it cannot be opened or read.
pub uninterp spec fn archive_entries(archive: ZipArchive<Cursor<&[u8]>>) -> Seq<Option<Seq<u8>>>;

/// Why a buffer could not be unwrapped.
#[derive(Debug)]
pub enum UnzipError {
    /// The buffer is not a readable zip archive; the text is the archive reader's.
    NotAnArchive(String),
    /// The archive holds no entry.
    Empty,
    /// The first entry could not be opened; the text is the archive reader's.
    Entry(String),
    /// Reading the first entry failed; the text is the reader's.
    Read(String),
}

impl UnzipError {
    /// The text of the error as it is reported.
    pub open spec fn text(self) -> Seq<char> {
        match self {
            UnzipError::NotAnArchive(detail) => detail@,
            UnzipError::Empty => "Zip archive is empty"@,
            UnzipError::Entry(detail) => detail@,
            UnzipError::Read(detail) => detail@,
        }
    }

    /// The text of the error, for a log line or an answer.
    pub fn message(&self) -> (text: String)
        ensures
            text@ == self.text(),
    {
        match self {
            UnzipError::NotAnArchive(detail) => detail.clone(),
            UnzipError::Empty => String::from_str("Zip archive is empty"),
            UnzipError::Entry(detail) => detail.clone(),
            UnzipError::Read(detail) => detail.clone(),
        }
    }
}

/// `zip::ZipArchive::new` over a `std::io::Cursor` on the buffer. Trusted: the outcome is
/// a function of the bytes alone, named `zip_entries`.
#[verifier::external_body]
fn open_archive<'a>(data: &'a [u8]) -> (r: Result<ZipArchive<Cursor<&'a [u8]>>, ZipError>)
    ensures
        match r {
            Ok(archive) => zip_entries(data@) == Some(archive_entries(archive)),
            Err(_) => zip_entries(data@) is None,
        },
{
    ZipArchive::new(Cursor::new(data))
}

/// `zip::ZipArchive::len`. Trusted: it is the number of entries.
#[verifier::external_body]
fn archive_len(archive: &ZipArchive<Cursor<&[u8]>>) -> (n: usize)
    ensures
        n == archive_entries(*archive).len(),
{
    archive.len()
}

/// Why an entry of an open archive could not be handed out.
enum EntryFailure {
    /// The archive reader could not open the entry.
    Open(ZipError),
    /// Reading the opened entry to its end failed.
    Read(std::io::Error),
}

/// `zip::ZipArchive::by_index`, then `std::io::Read::read_to_end` of the
/// `zip::read::ZipFile` it gives, into a fresh buffer. The two calls stand in one place
/// because the entry type is bounded by `std::io::Read` and cannot be named in verified
/// code. Trusted: an index past the last entry is refused, success hands out the whole
/// content that the archive holds at that index, and the archive holds the same entries
/// afterwards.
#[verifier::external_body]
fn read_entry(archive: &mut ZipArchive<Cursor<&[u8]>>, index: usize) -> (r: Result<
    Vec<u8>,
    EntryFailure,
>)
    ensures
        archive_entries(*final(archive)) == archive_entries(*old(archive)),
        match r {
            Ok(content) => index < archive_entries(*old(archive)).len() && archive_entries(
                *old(archive),
            )[index as int] == Some(content@),
            Err(_) => index >= archive_entries(*old(archive)).len() || archive_entries(
                *old(archive),
            )[index as int] is None,
        },
{
    let mut content = Vec::new();
    let mut entry = archive.by_index(index).map_err(EntryFailure::Open)?;
    entry.read_to_end(&mut content).map_err(EntryFailure::Read)?;
    Ok(content)
}

/// The `Display` text of a `zip::result::ZipError`. Nothing is claimed of it.
#[verifier::external_body]
fn zip_error_text(error: &ZipError) -> String {
    error.to_string()
}

/// The `Display` text of a `std::io::Error`. Nothing is claimed of it.
#[verifier::external_body]
fn io_error_text(error: &std::io::Error) -> String {
    error.to_string()
}

/// What unwrapping makes of the entries of an archive: the content of the entry at
/// index 0, whatever its name.
pub open spec fn first_of(entries: Seq<Option<Seq<u8>>>) -> Option<Seq<u8>> {
    if entries.len() == 0 {
        None
    } else {
        entries[0]
    }
}

/// What unwrapping makes of a byte buffer: the content of the first entry, or `None`
/// where the buffer is no archive, the archive is empty or the entry cannot be read.
pub open spec fn unwrapped(data: Seq<u8>) -> Option<Seq<u8>> {
    match zip_entries(data) {
        None => None,
        Some(entries) => first_of(entries),
    }
}

/// What unwrapping the buffer `data` may return: the content of the first entry where
/// there is one that can be read, and otherwise the error that says which of the three
/// things is wrong.
pub open spec fn unwrap_outcome(data: Seq<u8>, r: Result<Vec<u8>, UnzipError>) -> bool {
    match r {
        Ok(content) => unwrapped(data) == Some(content@),
        Err(UnzipError::NotAnArchive(_)) => zip_entries(data) is None,
        Err(UnzipError::Empty) => zip_entries(data) matches Some(entries) && entries.len() == 0,
        Err(UnzipError::Entry(_)) | Err(UnzipError::Read(_)) => zip_entries(data) matches Some(
            entries,
        ) && entries.len() > 0 && entries[0] is None,
    }
}

/// Unwrapping is a function of the bytes: whatever two runs on one buffer return, both
/// succeed or both fail, and where they succeed they return the same content.
pub proof fn unwrap_is_deterministic(
    data: Seq<u8>,
    first: Result<Vec<u8>, UnzipError>,
    second: Result<Vec<u8>, UnzipError>,
)
    requires
        unwrap_outcome(data, first),
        unwrap_outcome(data, second),
    ensures
        first is Ok <==> second is Ok,
        first is Ok <==> unwrapped(data) is Some,
        first matches Ok(a) ==> second matches Ok(b) && a@ == b@,
        first matches Err(UnzipError::Empty) <==> second matches Err(UnzipError::Empty),
        first matches Err(UnzipError::NotAnArchive(_)) <==> second matches Err(
            UnzipError::NotAnArchive(_),
        ),
{
}

/// A buffer that is no zip archive never unwraps: the outcome is the error that says so.
pub proof fn invalid_archive_fails(data: Seq<u8>, r: Result<Vec<u8>, UnzipError>)
    requires
        zip_entries(data) is None,
        unwrap_outcome(data, r),
    ensures
        r matches Err(UnzipError::NotAnArchive(_)),
{
}

/// An archive whose first entry can be read unwraps to the content of that entry,
/// whatever else the archive holds.
pub proof fn unwrap_yields_first_entry(
    data: Seq<u8>,
    entries: Seq<Option<Seq<u8>>>,
    content: Seq<u8>,
    r: Result<Vec<u8>, UnzipError>,
)
    requires
        zip_entries(data) == Some(entries),
        entries.len() > 0,
        entries[0] == Some(content),
        unwrap_outcome(data, r),
    ensures
        r matches Ok(bytes) && bytes@ == content,
{
}

/// An archive without entries never unwraps: the outcome is the error that says so,
/// with its fixed text.
pub proof fn empty_archive_fails(data: Seq<u8>, r: Result<Vec<u8>, UnzipError>)
    requires
        zip_entries(data) matches Some(entries) && entries.len() == 0,
        unwrap_outcome(data, r),
    ensures
        ({
            &&& r matches Err(error)
            &&& error == UnzipError::Empty
            &&& error.text() == "Zip archive is empty"@
        }),
{
}

/// Reads the entry at index 0 of an open archive into a flat buffer.
pub fn first_entry(archive: &mut ZipArchive<Cursor<&[u8]>>) -> (r: Result<Vec<u8>, UnzipError>)
    ensures
        archive_entries(*final(archive)) == archive_entries(*old(archive)),
        match r {
            Ok(content) => first_of(archive_entries(*old(archive))) == Some(content@),
            Err(UnzipError::Empty) => archive_entries(*old(archive)).len() == 0,
            Err(UnzipError::Entry(_)) | Err(UnzipError::Read(_)) => archive_entries(
                *old(archive),
            ).len() > 0 && archive_entries(*old(archive))[0] is None,
            Err(UnzipError::NotAnArchive(_)) => false,
        },
{
    if archive_len(archive) == 0 {
        return Err(UnzipError::Empty);
    }
    match read_entry(archive, 0) {
        Ok(content) => Ok(content),
        Err(EntryFailure::Open(e)) => Err(UnzipError::Entry(zip_error_text(&e))),
        Err(EntryFailure::Read(e)) => Err(UnzipError::Read(io_error_text(&e))),
    }
}

/// Treats the buffer as a zip archive and extracts its first entry. There is no
/// fallback: a buffer that is no archive, an empty archive and an unreadable entry are
/// all errors.
pub fn extract_first_file_as_bytes(data: &[u8]) -> (r: Result<Vec<u8>, UnzipError>)
    ensures
        unwrap_outcome(data@, r),
{
    match open_archive(data) {
        Err(e) => Err(UnzipError::NotAnArchive(zip_error_text(&e))),
        Ok(mut archive) => first_entry(&mut archive),
    }
}

} // verus!
