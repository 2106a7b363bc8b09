use gm48_scraper::archive::{extract_datafile_from_zip, is_data_file, ArchiveEntry};
use gm48_scraper::error::Error;
use std::io::{Cursor, Write};
use zip::write::SimpleFileOptions;
use zip::{CompressionMethod, ZipWriter};

enum Item<'a> {
    File(&'a str, &'a [u8]),
    Stored(&'a str, &'a [u8]),
    Dir(&'a str),
    Link(&'a str, &'a str),
}

fn archive(items: &[Item]) -> Vec<u8> {
    let mut writer = ZipWriter::new(Cursor::new(Vec::new()));
    let deflated = SimpleFileOptions::default().compression_method(CompressionMethod::Deflated);
    let stored = SimpleFileOptions::default().compression_method(CompressionMethod::Stored);
    for item in items {
        match item {
            Item::File(name, content) => {
                writer.start_file(*name, deflated).unwrap();
                writer.write_all(content).unwrap();
            }
            Item::Stored(name, content) => {
                writer.start_file(*name, stored).unwrap();
                writer.write_all(content).unwrap();
            }
            Item::Dir(name) => writer.add_directory(*name, stored).unwrap(),
            Item::Link(name, target) => writer.add_symlink(*name, *target, stored).unwrap(),
        }
    }
    writer.finish().unwrap().into_inner()
}

fn entry(name: &str, is_dir: bool) -> ArchiveEntry {
    ArchiveEntry { name: name.to_string(), is_dir, is_symlink: false, size: 0 }
}

#[test]
fn data_file_at_the_root_is_extracted() {
    let bytes = archive(&[Item::File("game.exe", b"MZ"), Item::File("data.win", b"FORM0123456789ab")]);
    assert_eq!(extract_datafile_from_zip(&bytes).unwrap(), b"FORM0123456789ab".to_vec());
}

#[test]
fn data_file_is_found_by_its_basename() {
    let nested = archive(&[Item::Dir("sub/"), Item::Dir("sub/dir/"), Item::File("sub/dir/data.win", b"nested")]);
    let root = archive(&[Item::File("data.win", b"nested")]);
    assert_eq!(extract_datafile_from_zip(&nested).unwrap(), b"nested".to_vec());
    assert_eq!(extract_datafile_from_zip(&nested).unwrap(), extract_datafile_from_zip(&root).unwrap());
}

#[test]
fn first_data_file_in_container_order_wins() {
    let bytes = archive(&[
        Item::File("readme.txt", b"hello"),
        Item::File("b/data.win", b"first"),
        Item::File("a/data.win", b"second"),
        Item::File("data.win", b"third"),
    ]);
    assert_eq!(extract_datafile_from_zip(&bytes).unwrap(), b"first".to_vec());
}

#[test]
fn stored_and_empty_data_files_are_read() {
    let bytes = archive(&[Item::Stored("x/data.win", b"plain bytes")]);
    assert_eq!(extract_datafile_from_zip(&bytes).unwrap(), b"plain bytes".to_vec());
    let bytes = archive(&[Item::File("data.win", b"")]);
    assert_eq!(extract_datafile_from_zip(&bytes).unwrap(), Vec::<u8>::new());
}

#[test]
fn large_data_file_is_read_whole() {
    let content: Vec<u8> = (0..200_000u32).map(|i| (i % 251) as u8).collect();
    let bytes = archive(&[Item::File("data.win", &content)]);
    assert_eq!(extract_datafile_from_zip(&bytes).unwrap(), content);
}

#[test]
fn directories_alone_hold_no_data_file() {
    let bytes = archive(&[Item::Dir("a/"), Item::Dir("a/b/"), Item::Dir("a/b/data.win/"), Item::Dir("data.win/")]);
    match extract_datafile_from_zip(&bytes) {
        Err(Error::DataFileNotFound { listing }) => {
            let names: Vec<&str> = listing.iter().map(|entry| entry.name.as_str()).collect();
            assert_eq!(names, vec!["a/", "a/b/", "a/b/data.win/", "data.win/"]);
            assert!(listing.iter().all(|entry| entry.is_dir && !entry.is_symlink));
        }
        other => panic!("unexpected {:?}", other),
    }
}

#[test]
fn directory_order_does_not_matter() {
    let one = archive(&[Item::Dir("a/"), Item::Dir("b/"), Item::Dir("b/c/")]);
    let other = archive(&[Item::Dir("b/c/"), Item::Dir("b/"), Item::Dir("a/")]);
    assert!(matches!(extract_datafile_from_zip(&one), Err(Error::DataFileNotFound { .. })));
    assert!(matches!(extract_datafile_from_zip(&other), Err(Error::DataFileNotFound { .. })));
}

#[test]
fn missing_data_file_lists_every_entry() {
    let bytes = archive(&[
        Item::Dir("bin/"),
        Item::File("bin/game.exe", b"MZ\x90"),
        Item::Link("latest", "bin/game.exe"),
        Item::File("Data.win", b"wrong case"),
        Item::File("data.win.bak", b"longer"),
        Item::File("xdata.win", b"prefix"),
    ]);
    match extract_datafile_from_zip(&bytes) {
        Err(Error::DataFileNotFound { listing }) => {
            let kinds: Vec<(&str, &str, u64)> =
                listing.iter().map(|entry| (entry.kind(), entry.name.as_str(), entry.size)).collect();
            assert_eq!(
                kinds,
                vec![
                    ("dir", "bin/", 0),
                    ("file", "bin/game.exe", 3),
                    ("file symlink", "latest", 12),
                    ("file", "Data.win", 10),
                    ("file", "data.win.bak", 6),
                    ("file", "xdata.win", 6),
                ]
            );
        }
        other => panic!("unexpected {:?}", other),
    }
}

#[test]
fn empty_archive_holds_no_data_file() {
    let bytes = archive(&[]);
    match extract_datafile_from_zip(&bytes) {
        Err(Error::DataFileNotFound { listing }) => assert!(listing.is_empty()),
        other => panic!("unexpected {:?}", other),
    }
}

#[test]
fn bytes_that_are_no_archive_are_refused() {
    assert!(matches!(extract_datafile_from_zip(b""), Err(Error::InvalidArchive(_))));
    assert!(matches!(extract_datafile_from_zip(b"MZ this is a self-extracting executable"), Err(Error::InvalidArchive(_))));
}

#[test]
fn damaged_data_file_is_an_archive_error() {
    let content = b"0123456789abcdef0123456789abcdef";
    let mut bytes = archive(&[Item::Stored("data.win", content)]);
    let at = bytes.windows(content.len()).position(|window| window == content).unwrap();
    bytes[at] ^= 0xff;
    assert!(matches!(extract_datafile_from_zip(&bytes), Err(Error::InvalidArchive(_))));
}

#[test]
fn data_file_is_a_file_named_data_win() {
    assert!(is_data_file(&entry("data.win", false)));
    assert!(is_data_file(&entry("sub/dir/data.win", false)));
    assert!(is_data_file(&entry("/data.win", false)));
    assert!(!is_data_file(&entry("data.win", true)));
    assert!(!is_data_file(&entry("data.win/", false)));
    assert!(!is_data_file(&entry("sub\\data.win", false)));
    assert!(!is_data_file(&entry("DATA.WIN", false)));
    assert!(!is_data_file(&entry("", false)));
}

#[test]
fn entries_are_labelled_by_kind() {
    let mut entry = entry("x", false);
    assert_eq!(entry.kind(), "file");
    entry.is_symlink = true;
    assert_eq!(entry.kind(), "file symlink");
    entry.is_dir = true;
    assert_eq!(entry.kind(), "dir symlink");
    entry.is_symlink = false;
    assert_eq!(entry.kind(), "dir");
}

/// A one-entry archive, written by hand, whose directory declares `size` for `name` in a
/// ZIP64 extra field while the entry holds `content`, stored.
fn archive_declaring(name: &str, content: &[u8], size: u64) -> Vec<u8> {
    let mut bytes = Vec::new();
    let name = name.as_bytes();
    let length = content.len() as u32;
    let crc = crc32(content);
    // Local file header.
    bytes.extend_from_slice(&0x0403_4b50u32.to_le_bytes());
    bytes.extend_from_slice(&45u16.to_le_bytes());
    bytes.extend_from_slice(&[0u8; 2]);
    bytes.extend_from_slice(&0u16.to_le_bytes());
    bytes.extend_from_slice(&[0u8; 4]);
    bytes.extend_from_slice(&crc.to_le_bytes());
    bytes.extend_from_slice(&length.to_le_bytes());
    bytes.extend_from_slice(&length.to_le_bytes());
    bytes.extend_from_slice(&(name.len() as u16).to_le_bytes());
    bytes.extend_from_slice(&0u16.to_le_bytes());
    bytes.extend_from_slice(name);
    bytes.extend_from_slice(content);
    // Central directory header with the size moved to a ZIP64 extra field.
    let directory = bytes.len() as u32;
    bytes.extend_from_slice(&0x0201_4b50u32.to_le_bytes());
    bytes.extend_from_slice(&45u16.to_le_bytes());
    bytes.extend_from_slice(&45u16.to_le_bytes());
    bytes.extend_from_slice(&[0u8; 2]);
    bytes.extend_from_slice(&0u16.to_le_bytes());
    bytes.extend_from_slice(&[0u8; 4]);
    bytes.extend_from_slice(&crc.to_le_bytes());
    bytes.extend_from_slice(&length.to_le_bytes());
    bytes.extend_from_slice(&u32::MAX.to_le_bytes());
    bytes.extend_from_slice(&(name.len() as u16).to_le_bytes());
    bytes.extend_from_slice(&12u16.to_le_bytes());
    bytes.extend_from_slice(&[0u8; 2]);
    bytes.extend_from_slice(&[0u8; 2]);
    bytes.extend_from_slice(&[0u8; 2]);
    bytes.extend_from_slice(&[0u8; 4]);
    bytes.extend_from_slice(&0u32.to_le_bytes());
    bytes.extend_from_slice(name);
    bytes.extend_from_slice(&1u16.to_le_bytes());
    bytes.extend_from_slice(&8u16.to_le_bytes());
    bytes.extend_from_slice(&size.to_le_bytes());
    let directory_length = bytes.len() as u32 - directory;
    // End of central directory.
    bytes.extend_from_slice(&0x0605_4b50u32.to_le_bytes());
    bytes.extend_from_slice(&[0u8; 4]);
    bytes.extend_from_slice(&1u16.to_le_bytes());
    bytes.extend_from_slice(&1u16.to_le_bytes());
    bytes.extend_from_slice(&directory_length.to_le_bytes());
    bytes.extend_from_slice(&directory.to_le_bytes());
    bytes.extend_from_slice(&0u16.to_le_bytes());
    bytes
}

fn crc32(content: &[u8]) -> u32 {
    let mut crc = u32::MAX;
    for byte in content {
        crc ^= *byte as u32;
        for _ in 0..8 {
            crc = if crc & 1 == 1 { (crc >> 1) ^ 0xedb8_8320 } else { crc >> 1 };
        }
    }
    !crc
}

#[test]
fn data_file_that_declares_too_much_is_refused() {
    let bytes = archive_declaring("pack/data.win", b"tiny", u64::MAX);
    match extract_datafile_from_zip(&bytes) {
        Err(Error::ArchiveEntryTooLarge { size }) => assert_eq!(size, u64::MAX),
        other => panic!("unexpected {:?}", other),
    }
}

#[test]
fn other_entries_may_declare_what_they_like() {
    let bytes = archive_declaring("pack/big.bin", b"tiny", u64::MAX);
    match extract_datafile_from_zip(&bytes) {
        Err(Error::DataFileNotFound { listing }) => {
            assert_eq!(listing.len(), 1);
            assert_eq!(listing[0].name, "pack/big.bin");
            assert_eq!(listing[0].size, u64::MAX);
        }
        other => panic!("unexpected {:?}", other),
    }
}
