use std::io::Cursor;
use std::io::Write;
use yara_scan::compress::extract_first_file_as_bytes;
use yara_scan::compress::first_entry;
use yara_scan::compress::UnzipError;
use zip::write::SimpleFileOptions;
use zip::CompressionMethod;
use zip::ZipArchive;
use zip::ZipWriter;

fn packed(entries: &[(&str, &[u8])], method: CompressionMethod) -> Vec<u8> {
    let mut writer = ZipWriter::new(Cursor::new(Vec::new()));
    let options = SimpleFileOptions::default().compression_method(method);
    for (name, content) in entries {
        writer.start_file(*name, options).unwrap();
        writer.write_all(content).unwrap();
    }
    writer.finish().unwrap().into_inner()
}

fn position_of(haystack: &[u8], needle: &[u8]) -> usize {
    haystack.windows(needle.len()).position(|w| w == needle).unwrap()
}

#[test]
fn plain_bytes_are_no_archive() {
    let r = extract_first_file_as_bytes(b"this is not a zip archive");
    assert!(matches!(r, Err(UnzipError::NotAnArchive(_))));
}

#[test]
fn empty_buffer_is_no_archive() {
    let r = extract_first_file_as_bytes(&[]);
    assert!(matches!(r, Err(UnzipError::NotAnArchive(_))));
}

#[test]
fn refusal_carries_the_text_of_the_archive_reader() {
    let data = b"PK but nothing more".to_vec();
    let expected = ZipArchive::new(Cursor::new(&data[..])).err().unwrap().to_string();
    match extract_first_file_as_bytes(&data) {
        Err(error @ UnzipError::NotAnArchive(_)) => {
            assert!(!expected.is_empty());
            assert_eq!(error.message(), expected);
        }
        other => panic!("unexpected outcome: {:?}", other),
    }
}

#[test]
fn empty_archive_is_an_error_with_a_fixed_text() {
    let data = packed(&[], CompressionMethod::Stored);
    match extract_first_file_as_bytes(&data) {
        Err(error @ UnzipError::Empty) => assert_eq!(error.message(), "Zip archive is empty"),
        other => panic!("unexpected outcome: {:?}", other),
    }
}

#[test]
fn stored_entry_comes_out_as_written() {
    let data = packed(&[("sample.bin", b"hello world")], CompressionMethod::Stored);
    assert_ne!(data, b"hello world".to_vec());
    assert_eq!(extract_first_file_as_bytes(&data).unwrap(), b"hello world".to_vec());
}

#[test]
fn deflated_entry_is_inflated() {
    let content = vec![b'a'; 10_000];
    let data = packed(&[("a.txt", &content)], CompressionMethod::Deflated);
    assert!(data.len() < content.len());
    assert_eq!(extract_first_file_as_bytes(&data).unwrap(), content);
}

#[test]
fn first_entry_wins_whatever_the_names() {
    let data = packed(
        &[("zzz-last-by-name", b"first written"), ("aaa-first-by-name", b"second written")],
        CompressionMethod::Stored,
    );
    assert_eq!(extract_first_file_as_bytes(&data).unwrap(), b"first written".to_vec());
}

#[test]
fn entry_without_content_unwraps_to_nothing() {
    let data = packed(&[("empty", b"")], CompressionMethod::Stored);
    assert_eq!(extract_first_file_as_bytes(&data).unwrap(), Vec::<u8>::new());
}

#[test]
fn unwrapping_twice_gives_the_same_content() {
    let data = packed(&[("x", b"same every time")], CompressionMethod::Deflated);
    let first = extract_first_file_as_bytes(&data).unwrap();
    let second = extract_first_file_as_bytes(&data).unwrap();
    assert_eq!(first, second);
    assert_eq!(first, b"same every time".to_vec());
}

#[test]
fn damaged_entry_is_a_read_error() {
    let mut data = packed(&[("x", b"CHECKED-CONTENT")], CompressionMethod::Stored);
    let at = position_of(&data, b"CHECKED-CONTENT");
    data[at] = b'X';
    match extract_first_file_as_bytes(&data) {
        Err(error @ UnzipError::Read(_)) => assert!(!error.message().is_empty()),
        other => panic!("unexpected outcome: {:?}", other),
    }
}

#[test]
fn protected_entry_cannot_be_opened() {
    let mut data = packed(&[("x", b"payload")], CompressionMethod::Stored);
    // The entry is marked as encrypted, in the central directory and in its own header.
    let central = position_of(&data, b"PK\x01\x02");
    data[central + 8] |= 1;
    let local = position_of(&data, b"PK\x03\x04");
    data[local + 6] |= 1;
    match extract_first_file_as_bytes(&data) {
        Err(error @ UnzipError::Entry(_)) => assert_eq!(
            error.message(),
            "unsupported Zip archive: Password required to decrypt file"
        ),
        other => panic!("unexpected outcome: {:?}", other),
    }
}

#[test]
fn first_entry_of_an_open_archive() {
    let data = packed(&[("one", b"1"), ("two", b"22")], CompressionMethod::Stored);
    let mut archive = ZipArchive::new(Cursor::new(&data[..])).unwrap();
    assert_eq!(first_entry(&mut archive).unwrap(), b"1".to_vec());
    assert_eq!(archive.len(), 2);
    assert_eq!(first_entry(&mut archive).unwrap(), b"1".to_vec());
}

#[test]
fn first_entry_of_an_open_empty_archive() {
    let data = packed(&[], CompressionMethod::Stored);
    let mut archive = ZipArchive::new(Cursor::new(&data[..])).unwrap();
    assert!(matches!(first_entry(&mut archive), Err(UnzipError::Empty)));
}
