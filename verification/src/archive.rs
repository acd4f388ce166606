use vstd::prelude::*;
use crate::failure::{Failure, FailureView};
use crate::paths::text_of;

verus! {

#[verifier::external_type_specification]
#[verifier::external_body]
#[verifier::reject_recursive_types(R)]
pub struct ExZipArchive<R>(zip::ZipArchive<R>);

#[verifier::external_type_specification]
#[verifier::external_body]
#[verifier::reject_recursive_types(T)]
pub struct ExCursor<T>(std::io::Cursor<T>);

#[verifier::external_type_specification]
#[verifier::external_body]
pub struct ExZipError(zip::result::ZipError);

/// Whether `name` ends in a slash, which is how an archive marks a directory.
pub open spec fn names_directory(name: Seq<char>) -> bool {
    name.len() > 0 && name.last() == '/'
}

/// Whether `name` ends in a slash.
pub fn ends_with_slash(name: &str) -> (r: bool)
    ensures
        r == names_directory(name@),
{
    let n: usize = name.unicode_len();
    n > 0 && name.get_char(n - 1) == '/'
}

/// What an archive says of one of its entries, without the entry's content.
#[derive(Debug, PartialEq, Eq)]
pub struct EntryHeader {
    /// The name under which the archive lists the entry.
    pub name: String,
    /// The name as a relative path that stays inside the directory it is unpacked
    /// into, if the name can be read as such a path.
    pub enclosed_name: Option<String>,
    /// The Unix permission bits stored with the entry, if any.
    pub unix_mode: Option<u32>,
}

/// The mathematical value of an [`EntryHeader`].
pub struct EntryHeaderView {
    pub name: Seq<char>,
    pub enclosed_name: Option<Seq<char>>,
    pub unix_mode: Option<u32>,
}

impl View for EntryHeader {
    type V = EntryHeaderView;

    open spec fn view(&self) -> EntryHeaderView {
        EntryHeaderView {
            name: self.name@,
            enclosed_name: text_of(self.enclosed_name),
            unix_mode: self.unix_mode,
        }
    }
}

/// One entry as an archive holds it: what the archive says of it, and its content as
/// far as it can be read.
pub struct StoredEntry {
    pub header: EntryHeaderView,
    pub content: Option<Seq<u8>>,
}

/// One entry of a zip archive, as it is unpacked.
#[derive(Debug, PartialEq, Eq)]
pub struct ArchiveEntry {
    /// The name under which the archive lists the entry.
    pub name: String,
    /// The name as a relative path that stays inside the directory it is unpacked
    /// into, if the name can be read as such a path.
    pub enclosed_name: Option<String>,
    /// The Unix permission bits stored with the entry, if any.
    pub unix_mode: Option<u32>,
    /// The bytes of the entry, uncompressed, if the entry is unpacked as a file; no
    /// bytes otherwise.
    pub content: Vec<u8>,
}

/// The mathematical value of an [`ArchiveEntry`].
pub struct ArchiveEntryView {
    pub name: Seq<char>,
    pub enclosed_name: Option<Seq<char>>,
    pub unix_mode: Option<u32>,
    pub content: Seq<u8>,
}

impl View for ArchiveEntry {
    type V = ArchiveEntryView;

    open spec fn view(&self) -> ArchiveEntryView {
        ArchiveEntryView {
            name: self.name@,
            enclosed_name: text_of(self.enclosed_name),
            unix_mode: self.unix_mode,
            content: self.content@,
        }
    }
}

/// The mathematical values of a sequence of entries.
pub open spec fn entries_of(entries: Seq<ArchiveEntry>) -> Seq<ArchiveEntryView> {
    entries.map_values(|e: ArchiveEntry| e@)
}

/// What an open archive holds: for each of its entries in the order of the archive's
/// directory, the entry as it can be opened, or nothing where opening it fails.
pub uninterp spec fn archive_entries(archive: zip::ZipArchive<std::io::Cursor<Vec<u8>>>) -> Seq<
    Option<StoredEntry>,
>;

/// What opening `bytes` as a zip archive gives: nothing where they cannot be opened,
/// else what the open archive holds.
pub uninterp spec fn parsed_archive(bytes: Seq<u8>) -> Option<Seq<Option<StoredEntry>>>;

/// The content of the entry at `index` of `entries`, if there is such an entry, it can
/// be opened and its content can be read.
pub open spec fn content_of(entries: Seq<Option<StoredEntry>>, index: int) -> Option<Seq<u8>> {
    if 0 <= index < entries.len() && entries[index] is Some {
        entries[index]->0.content
    } else {
        None
    }
}

/// Whether an entry is unpacked as a file: its name is a safe relative path and does
/// not mark a directory.
pub open spec fn is_unpacked_file(header: EntryHeaderView) -> bool {
    header.enclosed_name is Some && !names_directory(header.name)
}

/// Whether an entry can be unpacked: it can be opened, and its content can be read if
/// it is unpacked as a file.
pub open spec fn unpackable(entry: Option<StoredEntry>) -> bool {
    entry matches Some(stored) && (is_unpacked_file(stored.header) ==> stored.content is Some)
}

/// Whether `bytes` are a zip archive of which every entry can be unpacked.
pub open spec fn readable(bytes: Seq<u8>) -> bool {
    parsed_archive(bytes) matches Some(entries) && forall|i: int|
        0 <= i < entries.len() ==> unpackable(#[trigger] entries[i])
}

/// An entry as it is unpacked: with its content if it is unpacked as a file, without
/// any bytes otherwise.
pub open spec fn unpacked(entry: Option<StoredEntry>) -> ArchiveEntryView {
    let stored = entry->0;
    ArchiveEntryView {
        name: stored.header.name,
        enclosed_name: stored.header.enclosed_name,
        unix_mode: stored.header.unix_mode,
        content: if is_unpacked_file(stored.header) {
            stored.content->0
        } else {
            Seq::empty()
        },
    }
}

/// The entries of the archive `bytes` as they are unpacked, where it is readable.
pub open spec fn archived(bytes: Seq<u8>) -> Seq<ArchiveEntryView> {
    parsed_archive(bytes)->0.map_values(|e: Option<StoredEntry>| unpacked(e))
}

/// Opens `bytes` with `zip::ZipArchive::new`, which reads the archive's directory and
/// fails where there is none that it can read. The contract names what the archive
/// holds as a function of the bytes.
#[verifier::external_body]
fn open_archive(bytes: Vec<u8>) -> (r: Result<
    zip::ZipArchive<std::io::Cursor<Vec<u8>>>,
    zip::result::ZipError,
>)
    ensures
        r is Ok <==> parsed_archive(bytes@) is Some,
        r matches Ok(archive) ==> Some(archive_entries(archive)) == parsed_archive(bytes@),
{
    zip::ZipArchive::new(std::io::Cursor::new(bytes))
}

/// The number of entries, from `zip::ZipArchive::len`.
#[verifier::external_body]
fn archive_len(archive: &zip::ZipArchive<std::io::Cursor<Vec<u8>>>) -> (n: usize)
    ensures
        n == archive_entries(*archive).len(),
{
    archive.len()
}

/// Opens the entry at `index` with `zip::ZipArchive::by_index_decrypt` and an empty
/// password, and hands out what `zip::read::ZipFile` says of it: its name, its
/// enclosed name and its mode. The content is not read. For an entry that is not
/// encrypted the password is not used and the entry is opened as `by_index` opens it.
/// An entry with an AES field and no encryption flag, on which `by_index` stops the
/// program, is an error here, as is an index past the last entry. An encrypted entry
/// is tried with the empty password. The contract names what comes back as the header
/// of the entry that the archive holds at `index`; the archive holds the same after
/// the call.
#[verifier::external_body]
fn entry_at(archive: &mut zip::ZipArchive<std::io::Cursor<Vec<u8>>>, index: usize) -> (r: Result<
    EntryHeader,
    zip::result::ZipError,
>)
    ensures
        archive_entries(*final(archive)) == archive_entries(*old(archive)),
        r is Ok <==> index < archive_entries(*old(archive)).len() && archive_entries(
            *old(archive),
        )[index as int] is Some,
        r matches Ok(header) ==> header@ == archive_entries(*old(archive))[index as int]->0.header,
{
    let file = match archive.by_index_decrypt(index, &[]) {
        Ok(Ok(file)) => file,
        Ok(Err(_)) => return Err(zip::result::ZipError::UnsupportedArchive("Password required")),
        Err(error) => return Err(error),
    };
    let enclosed_name = match file.enclosed_name() {
        Some(path) => Some(path.to_string_lossy().into_owned()),
        None => None,
    };
    Ok(EntryHeader { name: file.name().to_owned(), enclosed_name, unix_mode: file.unix_mode() })
}

/// Opens the entry at `index` as [`entry_at`] does and reads it to its end with
/// `std::io::Read::read_to_end`, which uncompresses the content and checks its
/// checksum. The contract names what comes back as the content of the entry that the
/// archive holds at `index`, and the failure to read it as the lack of that content;
/// the archive holds the same after the call.
#[verifier::external_body]
fn content_at(archive: &mut zip::ZipArchive<std::io::Cursor<Vec<u8>>>, index: usize) -> (r: Result<
    Vec<u8>,
    zip::result::ZipError,
>)
    ensures
        archive_entries(*final(archive)) == archive_entries(*old(archive)),
        r is Ok <==> content_of(archive_entries(*old(archive)), index as int) is Some,
        r matches Ok(bytes) ==> Some(bytes@) == content_of(
            archive_entries(*old(archive)),
            index as int,
        ),
{
    let mut file = match archive.by_index_decrypt(index, &[]) {
        Ok(Ok(file)) => file,
        Ok(Err(_)) => return Err(zip::result::ZipError::UnsupportedArchive("Password required")),
        Err(error) => return Err(error),
    };
    let mut content = Vec::new();
    std::io::Read::read_to_end(&mut file, &mut content)?;
    Ok(content)
}

/// Reads the entries of the zip archive `bytes`, in the order of the archive's
/// directory. The content is read of those entries only that are unpacked as files:
/// an entry whose name is no safe relative path, or marks a directory, comes without
/// bytes, whatever the archive stores for it. Fails with [`Failure::BadArchive`] where
/// the bytes are no archive, an entry cannot be opened, or the content of an entry
/// that is unpacked as a file cannot be read.
#[verifier::loop_isolation(false)]
pub fn read_entries(bytes: Vec<u8>) -> (r: Result<Vec<ArchiveEntry>, Failure>)
    ensures
        r is Ok <==> readable(bytes@),
        r matches Ok(entries) ==> entries_of(entries@) == archived(bytes@),
        r matches Err(failure) ==> failure@ == FailureView::BadArchive,
{
    let ghost parsed = parsed_archive(bytes@);
    match open_archive(bytes) {
        Err(_) => Err(Failure::BadArchive),
        Ok(archive) => {
            let mut archive = archive;
            let ghost held = archive_entries(archive);
            let count: usize = archive_len(&archive);
            let mut entries: Vec<ArchiveEntry> = Vec::new();
            let mut i: usize = 0;
            while i < count
                invariant
                    i <= count,
                    count == held.len(),
                    parsed == Some(held),
                    archive_entries(archive) == held,
                    entries@.len() == i,
                    forall|j: int| 0 <= j < i ==> unpackable(#[trigger] held[j]),
                    forall|j: int| 0 <= j < i ==> (#[trigger] entries@[j])@ == unpacked(held[j]),
                decreases count - i,
            {
                let header = match entry_at(&mut archive, i) {
                    Err(_) => {
                        assert(!unpackable(held[i as int]));
                        assert(!readable(bytes@)) by {
                            assert(parsed_archive(bytes@) == Some(held));
                            if readable(bytes@) {
                                assert(unpackable(parsed_archive(bytes@)->0[i as int]));
                            }
                        }
                        return Err(Failure::BadArchive);
                    },
                    Ok(header) => header,
                };
                let wanted = header.enclosed_name.is_some() && !ends_with_slash(
                    header.name.as_str(),
                );
                let content = if wanted {
                    match content_at(&mut archive, i) {
                        Err(_) => {
                            assert(is_unpacked_file(held[i as int]->0.header));
                            assert(content_of(held, i as int) is None);
                            assert(!unpackable(held[i as int]));
                            assert(!readable(bytes@)) by {
                            assert(parsed_archive(bytes@) == Some(held));
                            if readable(bytes@) {
                                assert(unpackable(parsed_archive(bytes@)->0[i as int]));
                            }
                        }
                            return Err(Failure::BadArchive);
                        },
                        Ok(content) => content,
                    }
                } else {
                    Vec::new()
                };
                entries.push(
                    ArchiveEntry {
                        name: header.name,
                        enclosed_name: header.enclosed_name,
                        unix_mode: header.unix_mode,
                        content,
                    },
                );
                i = i + 1;
            }
            assert(entries_of(entries@) =~= held.map_values(|e: Option<StoredEntry>| unpacked(e)));
            Ok(entries)
        },
    }
}

} // verus!
