use std::io::Write;

use cm_launcher::archive::{
    extract_tar_zst, is_contained_path, plan_extraction, plan_tar_extraction,
    plan_zip_extraction, read_zip, TarEntry, ZipEntry,
};

fn sample_zip(names: &[(&str, Option<&[u8]>, Option<u32>)]) -> Vec<u8> {
    let mut writer = zip::ZipWriter::new(std::io::Cursor::new(Vec::new()));
    for (name, content, mode) in names {
        let mut options = zip::write::SimpleFileOptions::default()
            .compression_method(zip::CompressionMethod::Deflated);
        if let Some(mode) = mode {
            options = options.unix_permissions(*mode);
        }
        match content {
            Some(bytes) => {
                writer.start_file(*name, options).unwrap();
                writer.write_all(bytes).unwrap();
            }
            None => {
                writer.add_directory(*name, options).unwrap();
            }
        }
    }
    writer.finish().unwrap().into_inner()
}

fn entry(name: &str, enclosed: Option<&str>, mode: Option<u32>, data: &[u8]) -> ZipEntry {
    ZipEntry {
        name: name.to_string(),
        enclosed: enclosed.map(|s| s.to_string()),
        unix_mode: mode,
        data: data.to_vec(),
    }
}

#[test]
fn contained_paths_are_told_apart() {
    assert!(is_contained_path("byond/bin/dreamseeker.exe"));
    assert!(is_contained_path("byond/"));
    assert!(is_contained_path(""));
    assert!(is_contained_path("a/./b"));
    assert!(is_contained_path("a/..b/c"));
    assert!(is_contained_path("..."));
    assert!(!is_contained_path(".."));
    assert!(!is_contained_path("../evil"));
    assert!(!is_contained_path("a/../b"));
    assert!(!is_contained_path("a/b/.."));
    assert!(!is_contained_path("/etc/passwd"));
    assert!(!is_contained_path("a\0b"));
}

#[test]
fn windows_spellings_are_refused_too() {
    assert!(!is_contained_path("..\\evil.txt"));
    assert!(!is_contained_path("a\\..\\b"));
    assert!(!is_contained_path("a/..\\b"));
    assert!(!is_contained_path("a\\b/.."));
    assert!(!is_contained_path("\\abs"));
    assert!(!is_contained_path("\\\\server\\share\\x"));
    assert!(!is_contained_path("C:\\Windows\\x"));
    assert!(!is_contained_path("c:x"));
    assert!(!is_contained_path("Z:/x"));
    assert!(is_contained_path("a\\b\\c.txt"));
    assert!(is_contained_path("dir\\..x"));
    assert!(is_contained_path("1:x"));
    assert!(is_contained_path("ab:x"));
    assert!(is_contained_path("C"));
}

#[test]
fn zip_is_read_entry_by_entry() {
    let data = sample_zip(&[
        ("byond/", None, Some(0o755)),
        ("byond/bin/dreamseeker.exe", Some(b"MZ binary"), Some(0o755)),
        ("byond/readme.txt", Some(b"hello"), Some(0o644)),
    ]);
    let entries = read_zip(data).unwrap();
    assert_eq!(entries.len(), 3);
    assert_eq!(entries[0].name, "byond/");
    assert_eq!(entries[0].data, b"");
    assert_eq!(entries[1].name, "byond/bin/dreamseeker.exe");
    assert_eq!(entries[1].data, b"MZ binary");
    assert_eq!(entries[1].enclosed.as_deref(), Some("byond/bin/dreamseeker.exe"));
    assert_eq!(entries[1].unix_mode.map(|m| m & 0o777), Some(0o755));
    assert_eq!(entries[2].data, b"hello");
    assert_eq!(entries[2].unix_mode.map(|m| m & 0o777), Some(0o644));
}

#[test]
fn bytes_that_are_no_zip_are_refused() {
    let r = read_zip(b"this is not a zip archive".to_vec());
    let message = r.unwrap_err();
    assert!(message.starts_with("Failed to read zip archive: "));
    let r = plan_zip_extraction(Vec::new());
    assert!(r.unwrap_err().starts_with("Failed to read zip archive: "));
}

#[test]
fn plan_writes_directories_and_files_in_order() {
    let entries = vec![
        entry("byond/", Some("byond/"), Some(0o40755), b""),
        entry("byond/bin/ds.exe", Some("byond/bin/ds.exe"), Some(0o100755), b"x"),
        entry("notes.txt", Some("notes.txt"), None, b"n"),
    ];
    let plan = plan_extraction(&entries);
    assert_eq!(plan.len(), 3);
    assert_eq!(plan[0].source, 0);
    assert_eq!(plan[0].path, "byond/");
    assert!(plan[0].is_dir);
    assert_eq!(plan[0].unix_mode, Some(0o40755));
    assert_eq!(plan[1].source, 1);
    assert_eq!(plan[1].path, "byond/bin/ds.exe");
    assert!(!plan[1].is_dir);
    assert_eq!(plan[1].unix_mode, Some(0o100755));
    assert_eq!(plan[2].source, 2);
    assert_eq!(plan[2].unix_mode, None);
}

#[test]
fn plan_skips_what_could_leave_the_directory() {
    let entries = vec![
        entry("ok.txt", Some("ok.txt"), None, b"1"),
        entry("../evil.txt", None, None, b"2"),
        entry("a/../b.txt", Some("a/../b.txt"), None, b"3"),
        entry("/abs.txt", None, None, b"4"),
        entry("x/../../y", Some("still/../up"), None, b"5"),
        entry("fine/name", Some("../moved"), None, b"6"),
        entry("not-vouched", None, None, b"7"),
        entry("last.txt", Some("last.txt"), None, b"8"),
    ];
    let plan = plan_extraction(&entries);
    let sources: Vec<usize> = plan.iter().map(|s| s.source).collect();
    assert_eq!(sources, vec![0, 7]);
    for step in &plan {
        assert!(!step.path.split('/').any(|c| c == ".."));
        assert!(!step.path.starts_with('/'));
    }
}

#[test]
fn traversal_in_a_real_zip_creates_nothing() {
    let data = sample_zip(&[
        ("good.txt", Some(b"good"), None),
        ("../outside.txt", Some(b"bad"), None),
        ("dir/../../outside2.txt", Some(b"bad"), None),
        ("dir/../inside.txt", Some(b"odd"), None),
        ("dir/file.txt", Some(b"good"), None),
    ]);
    let (entries, plan) = plan_zip_extraction(data).unwrap();
    assert_eq!(entries.len(), 5);
    let written: Vec<&str> = plan.iter().map(|s| entries[s.source].name.as_str()).collect();
    assert_eq!(written, vec!["good.txt", "dir/file.txt"]);
    assert_eq!(entries[plan[1].source].data, b"good");
}

fn sample_tar_zst(items: &[(&str, Option<&[u8]>, u32)]) -> Vec<u8> {
    let mut raw = Vec::new();
    for (path, content, mode) in items {
        let mut header = tar::Header::new_gnu();
        let bytes = path.as_bytes();
        header.as_old_mut().name[..bytes.len()].copy_from_slice(bytes);
        header.set_mode(*mode);
        match content {
            Some(data) => {
                header.set_entry_type(tar::EntryType::Regular);
                header.set_size(data.len() as u64);
                header.set_cksum();
                raw.extend_from_slice(header.as_bytes());
                raw.extend_from_slice(data);
                let pad = (512 - data.len() % 512) % 512;
                raw.extend(std::iter::repeat(0u8).take(pad));
            }
            None => {
                header.set_entry_type(tar::EntryType::Directory);
                header.set_size(0);
                header.set_cksum();
                raw.extend_from_slice(header.as_bytes());
            }
        }
    }
    raw.extend(std::iter::repeat(0u8).take(1024));
    zstd::stream::encode_all(&raw[..], 3).unwrap()
}

#[test]
fn tar_zst_is_unpacked_by_plan() {
    let data = sample_tar_zst(&[
        ("game/", None, 0o755),
        ("game/colonialmarines.dmb", Some(b"dmb"), 0o644),
        ("game/run.sh", Some(b"#!/bin/sh"), 0o755),
    ]);
    let (entries, plan) = extract_tar_zst(&data).unwrap();
    assert_eq!(entries.len(), 3);
    assert_eq!(plan.len(), 3);
    assert!(plan[0].is_dir);
    assert_eq!(plan[0].path, "game/");
    assert_eq!(plan[0].unix_mode, None);
    assert_eq!(plan[1].path, "game/colonialmarines.dmb");
    assert_eq!(entries[plan[1].source].data, b"dmb");
    assert_eq!(plan[1].unix_mode, Some(0o644));
    assert_eq!(plan[2].unix_mode, Some(0o755));
    assert_eq!(entries[plan[2].source].data, b"#!/bin/sh");
}

#[test]
fn tar_traversal_creates_nothing() {
    let data = sample_tar_zst(&[
        ("ok.txt", Some(b"1"), 0o644),
        ("../evil.txt", Some(b"2"), 0o644),
        ("a/../b.txt", Some(b"3"), 0o644),
        ("/abs.txt", Some(b"4"), 0o644),
        ("..\\evil.txt", Some(b"6"), 0o644),
        ("C:\\evil.txt", Some(b"7"), 0o644),
        ("z.txt", Some(b"5"), 0o644),
    ]);
    let (entries, plan) = extract_tar_zst(&data).unwrap();
    assert_eq!(entries.len(), 7);
    let written: Vec<&str> = plan.iter().map(|s| s.path.as_str()).collect();
    assert_eq!(written, vec!["ok.txt", "z.txt"]);
}

#[test]
fn bytes_that_are_no_zstd_are_refused() {
    let r = extract_tar_zst(b"plainly not zstd");
    assert!(r.unwrap_err().starts_with("Failed to create zstd decoder: "));
}

#[test]
fn tar_plan_keeps_mode_for_files_only() {
    let entries = vec![
        TarEntry { path: "d".to_string(), is_dir: true, mode: Some(0o700), data: vec![] },
        TarEntry { path: "d/f".to_string(), is_dir: false, mode: Some(0o600), data: vec![1] },
        TarEntry { path: "d/../g".to_string(), is_dir: false, mode: None, data: vec![2] },
    ];
    let plan = plan_tar_extraction(&entries);
    assert_eq!(plan.len(), 2);
    assert_eq!(plan[0].unix_mode, None);
    assert_eq!(plan[1].unix_mode, Some(0o600));
    assert_eq!(plan[1].source, 1);
}
