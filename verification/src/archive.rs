//! Finding and reading the data file of a downloaded build archive.

use crate::error::Error;
use crate::text::{basename, basename_of, is_piece, lemma_piece_is_basename, lemma_split_at_last_slash, same_text};
use vstd::prelude::*;

verus! {

/// One entry of an archive's directory, as plain values.
#[derive(Debug, Clone)]
pub struct ArchiveEntry {
    /// The entry's name, with any directory prefix.
    pub name: String,
    /// Whether the entry is a directory.
    pub is_dir: bool,
    /// Whether the entry is a symbolic link.
    pub is_symlink: bool,
    /// The size that the entry declares for its uncompressed content.
    pub size: u64,
}

/// An `ArchiveEntry` in specifications.
pub struct EntryView {
    pub name: Seq<char>,
    pub is_dir: bool,
    pub is_symlink: bool,
    pub size: u64,
}

impl View for ArchiveEntry {
    type V = EntryView;

    open spec fn view(&self) -> EntryView {
        EntryView {
            name: self.name@,
            is_dir: self.is_dir,
            is_symlink: self.is_symlink,
            size: self.size,
        }
    }
}

/// What an archive holds at one index: the entry's directory record, where the entry can be
/// opened, and its decompressed content, where the entry can be read to its end.
pub struct EntryRecord {
    pub meta: Option<EntryView>,
    pub content: Option<Seq<u8>>,
}

#[verifier::external_type_specification]
#[verifier::external_body]
#[verifier::reject_recursive_types(R)]
pub struct ExZipArchive<R>(zip::ZipArchive<R>);

#[verifier::external_type_specification]
#[verifier::external_body]
#[verifier::reject_recursive_types(T)]
pub struct ExCursor<T>(std::io::Cursor<T>);

/// The entries of an opened archive, in container order.
pub uninterp spec fn archive_entries(archive: zip::ZipArchive<std::io::Cursor<&[u8]>>) -> Seq<
    EntryRecord,
>;

/// What opening `data` as an archive gives: `None` where its central directory cannot be
/// read, else the entries that it lists.
pub uninterp spec fn opened_archive(data: Seq<u8>) -> Option<Seq<EntryRecord>>;

/// `zip::ZipArchive::new` over a cursor on `data`. The contract only names the outcome: an
/// error exactly where `opened_archive` is `None`, else an archive with those entries.
#[verifier::external_body]
fn open_archive<'a>(data: &'a [u8]) -> (opened: Result<
    zip::ZipArchive<std::io::Cursor<&'a [u8]>>,
    zip::result::ZipError,
>)
    ensures
        match opened {
            Ok(archive) => opened_archive(data@) == Some(archive_entries(archive)),
            Err(_) => opened_archive(data@) is None,
        },
{
    zip::ZipArchive::new(std::io::Cursor::new(data))
}

/// `zip::ZipArchive::len`: the number of entries of the archive.
#[verifier::external_body]
fn entry_count(archive: &zip::ZipArchive<std::io::Cursor<&[u8]>>) -> (count: usize)
    ensures
        count == archive_entries(*archive).len(),
{
    archive.len()
}

/// `zip::ZipArchive::by_index`, with the opened entry handed out as its `name`, `is_dir`,
/// `is_symlink` and `size`. It fails exactly where the entry's record is `None` (the entry
/// cannot be opened, or its name cannot be decoded), and leaves the archive's entries as
/// they were.
#[verifier::external_body]
fn entry_at(archive: &mut zip::ZipArchive<std::io::Cursor<&[u8]>>, index: usize) -> (entry: Result<
    ArchiveEntry,
    zip::result::ZipError,
>)
    requires
        index < archive_entries(*old(archive)).len(),
    ensures
        archive_entries(*final(archive)) == archive_entries(*old(archive)),
        match entry {
            Ok(entry) => archive_entries(*old(archive))[index as int].meta == Some(entry@),
            Err(_) => archive_entries(*old(archive))[index as int].meta is None,
        },
{
    let file = archive.by_index(index)?;
    let name = file.name()?.into_owned();
    Ok(ArchiveEntry { name, is_dir: file.is_dir(), is_symlink: file.is_symlink(), size: file.size() })
}

/// `zip::ZipArchive::by_index` and `std::io::copy` of the opened entry into a buffer made
/// with `capacity`. It fails exactly where the entry's content is `None`, and leaves the
/// archive's entries as they were.
#[verifier::external_body]
fn read_entry(
    archive: &mut zip::ZipArchive<std::io::Cursor<&[u8]>>,
    index: usize,
    capacity: usize,
) -> (content: Result<Vec<u8>, zip::result::ZipError>)
    requires
        index < archive_entries(*old(archive)).len(),
        capacity <= isize::MAX,
    ensures
        archive_entries(*final(archive)) == archive_entries(*old(archive)),
        match content {
            Ok(bytes) => archive_entries(*old(archive))[index as int].content == Some(bytes@),
            Err(_) => archive_entries(*old(archive))[index as int].content is None,
        },
{
    let mut file = archive.by_index(index)?;
    let mut content = Vec::with_capacity(capacity);
    std::io::copy(&mut file, &mut content)?;
    Ok(content)
}

/// The name of the data file.
pub open spec fn data_file_name() -> Seq<char> {
    "data.win"@
}

/// Whether an entry is the data file: a file entry whose name, after its last `/`, is
/// `data.win`.
pub open spec fn is_data_entry(entry: EntryView) -> bool {
    !entry.is_dir && basename(entry.name) == data_file_name()
}

/// Whether the scan for the data file stops at a record: it cannot be opened, or it is the
/// data file.
pub open spec fn scan_stops_at(record: EntryRecord) -> bool {
    match record.meta {
        None => true,
        Some(entry) => is_data_entry(entry),
    }
}

/// The index of the first record from `from` on at which the scan stops; the number of
/// records where it stops at none.
pub open spec fn first_stop(entries: Seq<EntryRecord>, from: int) -> int
    decreases entries.len() - from,
{
    if from >= entries.len() {
        entries.len() as int
    } else if scan_stops_at(entries[from]) {
        from
    } else {
        first_stop(entries, from + 1)
    }
}

/// The largest declared size that the data file may have: that of the largest buffer.
pub open spec fn size_limit() -> int {
    isize::MAX as int
}

/// What extraction returns for an archive with the given entries.
pub open spec fn extraction_outcome(
    entries: Seq<EntryRecord>,
    result: Result<Vec<u8>, Error>,
) -> bool {
    let stop = first_stop(entries, 0);
    if stop == entries.len() {
        match result {
            Err(Error::DataFileNotFound { listing }) => {
                &&& listing@.len() == entries.len()
                &&& forall|i: int|
                    0 <= i < entries.len() ==> entries[i].meta == Some(#[trigger] listing@[i]@)
            },
            _ => false,
        }
    } else {
        match entries[stop].meta {
            None => result matches Err(Error::InvalidArchive(_)),
            Some(entry) => if entry.size > size_limit() {
                match result {
                    Err(Error::ArchiveEntryTooLarge { size }) => size == entry.size,
                    _ => false,
                }
            } else {
                match entries[stop].content {
                    Some(bytes) => match result {
                        Ok(content) => content@ == bytes,
                        Err(_) => false,
                    },
                    None => result matches Err(Error::InvalidArchive(_)),
                }
            },
        }
    }
}

/// What `extract_datafile_from_zip` returns for bytes that open as `opened`.
pub open spec fn archive_outcome(
    opened: Option<Seq<EntryRecord>>,
    result: Result<Vec<u8>, Error>,
) -> bool {
    match opened {
        None => result matches Err(Error::InvalidArchive(_)),
        Some(entries) => extraction_outcome(entries, result),
    }
}

/// Whether an entry is the data file.
pub fn is_data_file(entry: &ArchiveEntry) -> (data_file: bool)
    ensures
        data_file == is_data_entry(entry@),
{
    !entry.is_dir && same_text(basename_of(entry.name.as_str()), "data.win")
}

/// `first_stop` is the least index from `from` on at which the scan stops.
pub proof fn lemma_first_stop(entries: Seq<EntryRecord>, from: int)
    requires
        0 <= from <= entries.len(),
    ensures
        from <= first_stop(entries, from) <= entries.len(),
        first_stop(entries, from) < entries.len() ==> scan_stops_at(
            entries[first_stop(entries, from)],
        ),
        forall|i: int| from <= i < first_stop(entries, from) ==> !scan_stops_at(#[trigger] entries[i]),
    decreases entries.len() - from,
{
    if from < entries.len() && !scan_stops_at(entries[from]) {
        lemma_first_stop(entries, from + 1);
    }
}

/// Where the scan meets a record at which it stops, and none before it, that record decides:
/// what stands after it, be it another data file, is never looked at.
pub proof fn lemma_first_match_decides(entries: Seq<EntryRecord>, first: int)
    requires
        0 <= first < entries.len(),
        scan_stops_at(entries[first]),
        forall|i: int| 0 <= i < first ==> !scan_stops_at(#[trigger] entries[i]),
    ensures
        first_stop(entries, 0) == first,
{
    lemma_first_stop(entries, 0);
}

/// Of two data files in one archive the first in container order is extracted: where no
/// record before `first` stops the scan and the data file at `first` can be read, extraction
/// returns its content.
pub proof fn lemma_first_data_file_is_extracted(
    entries: Seq<EntryRecord>,
    first: int,
    result: Result<Vec<u8>, Error>,
)
    requires
        0 <= first < entries.len(),
        forall|i: int| 0 <= i < first ==> !scan_stops_at(#[trigger] entries[i]),
        entries[first].meta matches Some(entry) && is_data_entry(entry) && entry.size
            <= size_limit(),
        entries[first].content is Some,
        extraction_outcome(entries, result),
    ensures
        result matches Ok(content) && content@ == entries[first].content->0,
{
    lemma_first_match_decides(entries, first);
}

/// An archive whose entries are all directories holds no data file, however they are named
/// and nested: extraction fails with `DataFileNotFound`.
pub proof fn lemma_directories_hold_no_data_file(
    entries: Seq<EntryRecord>,
    result: Result<Vec<u8>, Error>,
)
    requires
        forall|i: int|
            0 <= i < entries.len() ==> ((#[trigger] entries[i]).meta matches Some(entry)
                && entry.is_dir),
        extraction_outcome(entries, result),
    ensures
        result matches Err(Error::DataFileNotFound { .. }),
{
    lemma_first_stop(entries, 0);
}

/// Only the part of a name after its last `/` decides: a file entry named `data.win` under
/// any directory prefix is the data file, as one at the archive's root is.
pub proof fn lemma_data_file_under_any_prefix(prefix: Seq<char>, entry: EntryView)
    requires
        !entry.is_dir,
        entry.name == data_file_name() || entry.name == prefix + seq!['/'] + data_file_name(),
    ensures
        is_data_entry(entry),
{
    reveal_strlit("data.win");
    assert(is_piece(data_file_name()));
    lemma_piece_is_basename(data_file_name());
    lemma_split_at_last_slash(prefix, data_file_name());
}

/// The content of the data file of the archive in `data`: the first file entry, in container
/// order, whose name after its last `/` is `data.win`, decompressed.
///
/// It fails with `InvalidArchive` where the archive's directory, an entry before the data
/// file, or the data file's content cannot be read; with `ArchiveEntryTooLarge` where the
/// data file declares a size beyond `size_limit()`; and with `DataFileNotFound`, which lists
/// every entry, where no entry is the data file.
pub fn extract_datafile_from_zip(data: &[u8]) -> (result: Result<Vec<u8>, Error>)
    ensures
        archive_outcome(opened_archive(data@), result),
{
    let mut archive = match open_archive(data) {
        Ok(archive) => archive,
        Err(cause) => {
            return Err(Error::InvalidArchive(cause));
        },
    };
    let ghost entries = archive_entries(archive);
    let count = entry_count(&archive);
    let mut listing: Vec<ArchiveEntry> = Vec::new();
    let mut i: usize = 0;
    while i < count
        invariant
            i <= count,
            count == entries.len(),
            opened_archive(data@) == Some(entries),
            archive_entries(archive) == entries,
            first_stop(entries, 0) == first_stop(entries, i as int),
            listing@.len() == i,
            forall|j: int| 0 <= j < i ==> entries[j].meta == Some(#[trigger] listing@[j]@),
        decreases count - i,
    {
        let entry = match entry_at(&mut archive, i) {
            Ok(entry) => entry,
            Err(cause) => {
                return Err(Error::InvalidArchive(cause));
            },
        };
        if is_data_file(&entry) {
            if entry.size > isize::MAX as u64 {
                return Err(Error::ArchiveEntryTooLarge { size: entry.size });
            }
            return match read_entry(&mut archive, i, entry.size as usize) {
                Ok(content) => Ok(content),
                Err(cause) => Err(Error::InvalidArchive(cause)),
            };
        }
        listing.push(entry);
        i = i + 1;
    }
    Err(Error::DataFileNotFound { listing })
}

/// The label under which an entry is listed: a directory or a file, and whether it is a
/// symbolic link.
pub open spec fn entry_kind_label(is_dir: bool, is_symlink: bool) -> Seq<char> {
    if is_dir && is_symlink {
        "dir symlink"@
    } else if is_dir {
        "dir"@
    } else if is_symlink {
        "file symlink"@
    } else {
        "file"@
    }
}

impl ArchiveEntry {
    /// The label under which the entry is listed.
    pub fn kind(&self) -> (label: &'static str)
        ensures
            label@ == entry_kind_label(self.is_dir, self.is_symlink),
    {
        if self.is_dir && self.is_symlink {
            "dir symlink"
        } else if self.is_dir {
            "dir"
        } else if self.is_symlink {
            "file symlink"
        } else {
            "file"
        }
    }
}

} // verus!
