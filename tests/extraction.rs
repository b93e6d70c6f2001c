use std::io::{Cursor, Write};

use sealupd::archive::{decompress, plan_extraction, slip_message, ArchiveEntry, DecompressError, Extraction};
use sealupd::paths::{destination_path, is_safe_path, is_suspicious_path, same_text};

const UPDATER: &str = "sealupd.exe";

fn zip_package(files: &[(&str, &str)], dirs: &[&str]) -> Vec<u8> {
    let mut writer = zip::ZipWriter::new(Cursor::new(Vec::new()));
    let options = zip::write::SimpleFileOptions::default();
    for dir in dirs {
        writer.add_directory(*dir, options).unwrap();
    }
    for (name, data) in files {
        writer.start_file(*name, options).unwrap();
        writer.write_all(data.as_bytes()).unwrap();
    }
    writer.finish().unwrap().into_inner()
}

fn tar_header(name: &str, size: u64, dir: bool) -> tar::Header {
    let mut header = tar::Header::new_gnu();
    let bytes = name.as_bytes();
    header.as_old_mut().name[..bytes.len()].copy_from_slice(bytes);
    header.set_size(size);
    header.set_mode(0o644);
    if dir {
        header.set_entry_type(tar::EntryType::Directory);
    }
    header.set_cksum();
    header
}

fn tarball_package(files: &[(&str, &str)], dirs: &[&str]) -> Vec<u8> {
    let encoder = flate2::write::GzEncoder::new(Vec::new(), flate2::Compression::default());
    let mut builder = tar::Builder::new(encoder);
    for dir in dirs {
        builder.append(&tar_header(dir, 0, true), &[][..]).unwrap();
    }
    for (name, data) in files {
        builder.append(&tar_header(name, data.len() as u64, false), data.as_bytes()).unwrap();
    }
    builder.into_inner().unwrap().finish().unwrap()
}

fn steps_of(x: &Extraction) -> Vec<(String, bool)> {
    x.steps.iter().map(|s| (s.dest.clone(), s.directory)).collect()
}

fn entry(name: &str, is_dir: bool) -> ArchiveEntry {
    ArchiveEntry { name: name.to_string(), is_dir, data: Vec::new() }
}

#[test]
fn parent_and_root_components_are_suspicious() {
    assert!(is_suspicious_path("../../evil"));
    assert!(is_suspicious_path("/etc/passwd"));
    assert!(is_suspicious_path("a/../b"));
    assert!(is_suspicious_path(".."));
    assert!(is_suspicious_path("a/.."));
    assert!(is_suspicious_path("a\\..\\b"));
    assert!(is_suspicious_path("\\windows"));
}

#[test]
fn drive_prefixes_are_suspicious() {
    assert!(is_suspicious_path("C:/evil"));
    assert!(is_suspicious_path("c:evil"));
    assert!(is_suspicious_path("Z:\\x"));
    assert!(!is_safe_path("C:/evil"));
    assert!(is_safe_path("1:/x"));
    assert!(is_safe_path("ab:c"));
}

#[test]
fn ordinary_paths_are_safe() {
    assert!(is_safe_path("app.exe"));
    assert!(is_safe_path("data/..hidden"));
    assert!(is_safe_path("a../b"));
    assert!(is_safe_path("./lib/x.so"));
    assert!(is_safe_path(""));
    assert!(!is_safe_path("../x"));
}

#[test]
fn same_text_compares_characters() {
    assert!(same_text("sealupd", "sealupd"));
    assert!(!same_text("sealupd", "sealupd.exe"));
    assert!(!same_text("abc", "abd"));
}

#[test]
fn updater_entry_is_quarantined() {
    assert_eq!(destination_path(UPDATER, UPDATER), "new-updater/sealupd.exe");
    assert_eq!(destination_path("app.exe", UPDATER), "app.exe");
    assert_eq!(destination_path("sub/sealupd.exe", UPDATER), "sub/sealupd.exe");
}

#[test]
fn plan_marks_directories() {
    let entries = vec![entry("docs/", false), entry("bin", true), entry("bin/app", false)];
    let steps = match plan_extraction(&entries, UPDATER) {
        Ok(steps) => steps,
        Err(_) => panic!("plan failed"),
    };
    let got: Vec<(String, bool)> = steps.iter().map(|s| (s.dest.clone(), s.directory)).collect();
    assert_eq!(
        got,
        vec![("docs/".to_string(), true), ("bin".to_string(), true), ("bin/app".to_string(), false)]
    );
}

#[test]
fn plan_stops_at_first_unsafe_entry() {
    let entries = vec![entry("ok.txt", false), entry("/abs", false), entry("../up", false)];
    match plan_extraction(&entries, UPDATER) {
        Err(DecompressError::SlipError(name)) => assert_eq!(name, "/abs"),
        _ => panic!("expected a slip error"),
    }
}

#[test]
fn zip_package_with_updater_is_planned() {
    let bytes = zip_package(&[("app.exe", "new app"), ("sealupd.exe", "new updater")], &[]);
    let x = match decompress(&bytes, UPDATER) {
        Ok(x) => x,
        Err(_) => panic!("extraction failed"),
    };
    assert_eq!(x.steps.len(), 2);
    assert_eq!(
        steps_of(&x),
        vec![("app.exe".to_string(), false), ("new-updater/sealupd.exe".to_string(), false)]
    );
    assert_eq!(x.entries[0].data, b"new app".to_vec());
    assert_eq!(x.entries[1].data, b"new updater".to_vec());
}

#[test]
fn zip_and_tarball_with_same_entries_agree() {
    let files: &[(&str, &str)] = &[("app.exe", "binary"), ("lib/a.so", "lib"), ("sealupd.exe", "upd")];
    let dirs: &[&str] = &["lib/"];
    let from_zip = match decompress(&zip_package(files, dirs), UPDATER) {
        Ok(x) => x,
        Err(_) => panic!("zip failed"),
    };
    let from_tar = match decompress(&tarball_package(files, dirs), UPDATER) {
        Ok(x) => x,
        Err(_) => panic!("tarball failed"),
    };
    assert_eq!(from_zip.steps.len(), 4);
    assert_eq!(from_zip.steps.len(), from_tar.steps.len());
    assert_eq!(steps_of(&from_zip), steps_of(&from_tar));
    for (a, b) in from_zip.entries.iter().zip(from_tar.entries.iter()) {
        assert_eq!(a.data, b.data);
    }
}

#[test]
fn format_follows_content_not_name() {
    let tarball = tarball_package(&[("app.exe", "x")], &[]);
    let zip = zip_package(&[("app.exe", "x")], &[]);
    for bytes in [tarball, zip] {
        let x = match decompress(&bytes, UPDATER) {
            Ok(x) => x,
            Err(_) => panic!("extraction failed"),
        };
        assert_eq!(steps_of(&x), vec![("app.exe".to_string(), false)]);
        assert_eq!(x.entries[0].data, b"x".to_vec());
    }
}

#[test]
fn drive_prefixed_entry_is_refused() {
    let bytes = zip_package(&[("ok.txt", "fine"), ("C:/evil", "bad")], &[]);
    match decompress(&bytes, UPDATER) {
        Err(DecompressError::SlipError(name)) => assert_eq!(name, "C:/evil"),
        _ => panic!("expected a slip error"),
    }
}

#[test]
fn corrupt_zip_member_is_a_zip_error() {
    let mut writer = zip::ZipWriter::new(Cursor::new(Vec::new()));
    let options =
        zip::write::SimpleFileOptions::default().compression_method(zip::CompressionMethod::Stored);
    writer.start_file("app.exe", options).unwrap();
    writer.write_all(b"hello world payload").unwrap();
    let mut bytes = writer.finish().unwrap().into_inner();
    let at = bytes.windows(5).position(|w| w == b"hello").unwrap();
    bytes[at] = b'j';
    match decompress(&bytes, UPDATER) {
        Err(DecompressError::ZipError(_)) => {}
        _ => panic!("expected a zip error"),
    }
}

#[test]
fn non_utf8_tar_name_is_an_io_error() {
    let encoder = flate2::write::GzEncoder::new(Vec::new(), flate2::Compression::default());
    let mut builder = tar::Builder::new(encoder);
    let mut header = tar::Header::new_gnu();
    header.as_old_mut().name[..3].copy_from_slice(&[b'a', 0xff, b'b']);
    header.set_size(0);
    header.set_cksum();
    builder.append(&header, &[][..]).unwrap();
    let bytes = builder.into_inner().unwrap().finish().unwrap();
    match decompress(&bytes, UPDATER) {
        Err(DecompressError::IoError(_)) => {}
        _ => panic!("expected an i/o error"),
    }
}

#[test]
fn slip_message_names_the_entry() {
    assert_eq!(slip_message("../x"), "entry '../x' might lead to slip exploit");
}

#[test]
fn tarball_with_traversal_is_refused() {
    let bytes = tarball_package(&[("../../evil", "payload")], &[]);
    match decompress(&bytes, UPDATER) {
        Err(DecompressError::SlipError(name)) => assert_eq!(name, "../../evil"),
        _ => panic!("expected a slip error"),
    }
}

#[test]
fn zip_with_traversal_after_good_entry_is_refused() {
    let bytes = zip_package(&[("good.txt", "ok"), ("../evil", "bad")], &[]);
    match decompress(&bytes, UPDATER) {
        Err(DecompressError::SlipError(name)) => assert_eq!(name, "../evil"),
        _ => panic!("expected a slip error"),
    }
}

#[test]
fn neither_format_is_a_gzip_error() {
    match decompress(b"definitely not an archive", UPDATER) {
        Err(DecompressError::IoError(_)) => {}
        _ => panic!("expected an i/o error"),
    }
}

#[test]
fn broken_gzip_is_an_io_error() {
    match decompress(&[0x1f, 0x8b, 0x00, 0x01, 0x02], UPDATER) {
        Err(DecompressError::IoError(_)) => {}
        _ => panic!("expected an i/o error"),
    }
}
