//! Zip archives in memory, read by `zip`.

use vstd::prelude::*;

verus! {

/// `std::io::Cursor`: a reader over what is in memory.
#[verifier::external_type_specification]
#[verifier::external_body]
#[verifier::reject_recursive_types(T)]
pub struct ExCursor<T>(std::io::Cursor<T>);

/// `zip::ZipArchive`: an archive opened for reading.
#[verifier::external_type_specification]
#[verifier::external_body]
#[verifier::reject_recursive_types(R)]
pub struct ExZipArchive<R>(zip::ZipArchive<R>);

/// `zip::result::ZipError`: why an archive or an entry could not be opened.
#[verifier::external_type_specification]
#[verifier::external_body]
pub struct ExZipError(zip::result::ZipError);

/// What an entry of an archive gives.
pub enum EntryView {
    /// Its contents.
    Contents(Seq<u8>),
    /// The message of the error that opening it gives; an entry that is not there has one.
    Missing(Seq<char>),
    /// The message of the error that reading it gives.
    Unreadable(Seq<char>),
}

/// The bytes that an archive was opened on.
pub uninterp spec fn archive_bytes(archive: zip::ZipArchive<std::io::Cursor<Vec<u8>>>) -> Seq<u8>;

/// The message of the error that opening some bytes as an archive gives, if it does.
pub uninterp spec fn archive_failure(bytes: Seq<u8>) -> Option<Seq<char>>;

/// What an entry of the archive in some bytes gives.
pub uninterp spec fn archive_entry(bytes: Seq<u8>, name: Seq<char>) -> EntryView;

/// The message of an archive error.
pub uninterp spec fn zip_error_text(error: zip::result::ZipError) -> Seq<char>;

/// `zip::ZipArchive::new` on bytes in memory: the archive, or the error.
#[verifier::external_body]
pub(crate) fn open_archive(bytes: Vec<u8>) -> (result: Result<
    zip::ZipArchive<std::io::Cursor<Vec<u8>>>,
    zip::result::ZipError,
>)
    ensures
        match result {
            Ok(archive) => archive_failure(bytes@) is None && archive_bytes(archive) == bytes@,
            Err(error) => archive_failure(bytes@) == Some(zip_error_text(error)),
        },
{
    zip::ZipArchive::new(std::io::Cursor::new(bytes))
}

/// `zip::ZipArchive::by_name`, and the entry it finds read to its end: the contents of the entry,
/// the message of the error of reading it, or the error of finding it. The archive stays what it
/// was.
#[verifier::external_body]
pub(crate) fn read_entry(
    archive: &mut zip::ZipArchive<std::io::Cursor<Vec<u8>>>,
    name: &str,
) -> (result: Result<Result<Vec<u8>, String>, zip::result::ZipError>)
    ensures
        archive_bytes(*final(archive)) == archive_bytes(*old(archive)),
        match result {
            Ok(Ok(contents)) => archive_entry(archive_bytes(*old(archive)), name@)
                == EntryView::Contents(contents@),
            Ok(Err(message)) => archive_entry(archive_bytes(*old(archive)), name@)
                == EntryView::Unreadable(message@),
            Err(error) => archive_entry(archive_bytes(*old(archive)), name@)
                == EntryView::Missing(zip_error_text(error)),
        },
{
    let mut entry = archive.by_name(name)?;
    let mut contents = Vec::new();
    let read = std::io::Read::read_to_end(&mut entry, &mut contents);
    Ok(read.map(|_| contents).map_err(|error| error.to_string()))
}

/// The `Display` text of a `zip::result::ZipError`.
#[verifier::external_body]
pub(crate) fn zip_message(error: &zip::result::ZipError) -> (text: String)
    ensures
        text@ == zip_error_text(*error),
{
    error.to_string()
}

} // verus!
