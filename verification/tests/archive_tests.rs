//! Tests for extraction, packing, sessions and handlers: in-memory
//! round trips through the real codecs, entry-kind dispatch, and the
//! session's sorted file list.

use std::io::Write;

use nvisy::archive_type::ArchiveType;
use nvisy::entry::FileEntry;
use nvisy::error::Error;
use nvisy::extract::{extract_archive, written_file_paths, ExtractOp};
use nvisy::handlers::{TarArchiveBuilder, TarArchiveHandler, ZipArchiveBuilder, ZipArchiveHandler};
use nvisy::pack::{build_archive, plan_pack, resolve_pack_type};
use nvisy::session::ArchiveHandler;

fn file_entry(path: &str, data: &[u8]) -> FileEntry {
    FileEntry {
        path: path.to_string(),
        data: data.to_vec(),
    }
}

fn writes_of(ops: &[ExtractOp]) -> Vec<(String, Vec<u8>)> {
    let mut out = Vec::new();
    for op in ops {
        if let ExtractOp::WriteFile { path, data, .. } = op {
            out.push((path.clone(), data.clone()));
        }
    }
    out
}

fn roundtrip(tag: ArchiveType) {
    let entries = vec![
        file_entry("a.txt", b"hello"),
        file_entry("dir/b.txt", b"world"),
        file_entry("dir/sub/c.bin", &[0u8, 1, 2, 255]),
    ];
    let bytes = build_archive(tag, &entries).unwrap();
    let ops = extract_archive(tag, &bytes, None).unwrap();
    let mut writes = writes_of(&ops);
    writes.sort();
    assert_eq!(
        writes,
        vec![
            ("a.txt".to_string(), b"hello".to_vec()),
            ("dir/b.txt".to_string(), b"world".to_vec()),
            ("dir/sub/c.bin".to_string(), vec![0u8, 1, 2, 255]),
        ]
    );
}

#[test]
fn test_roundtrip_zip() {
    roundtrip(ArchiveType::Zip);
}

#[test]
fn test_roundtrip_tar() {
    roundtrip(ArchiveType::Tar);
}

#[test]
fn test_roundtrip_tar_gz() {
    roundtrip(ArchiveType::TarGz);
}

#[test]
fn test_roundtrip_tar_bz2() {
    roundtrip(ArchiveType::TarBz2);
}

#[test]
fn test_roundtrip_tar_xz() {
    roundtrip(ArchiveType::TarXz);
}

#[test]
fn test_empty_archive() {
    for tag in [
        ArchiveType::Zip,
        ArchiveType::Tar,
        ArchiveType::TarGz,
        ArchiveType::TarBz2,
    ] {
        let bytes = build_archive(tag, &Vec::new()).unwrap();
        assert!(!bytes.is_empty());
        let ops = extract_archive(tag, &bytes, None).unwrap();
        assert_eq!(ops.len(), 0);
        let session = ArchiveHandler::new(tag, None, "/scratch/session".to_string(), Vec::new());
        assert!(session.is_empty());
        assert_eq!(session.file_count(), 0);
    }
}

#[test]
fn test_single_stream_formats_rejected_for_pack() {
    for tag in [ArchiveType::Gz, ArchiveType::Bz2, ArchiveType::Xz] {
        let r = build_archive(tag, &vec![file_entry("a", b"x")]);
        assert!(matches!(r.unwrap_err(), Error::UnsupportedFormat { .. }));
    }
}

#[test]
fn test_corrupt_archives_are_codec_errors() {
    let garbage = b"this is not an archive at all".to_vec();
    for tag in [
        ArchiveType::Zip,
        ArchiveType::TarGz,
        ArchiveType::TarBz2,
        ArchiveType::TarXz,
        ArchiveType::Gz,
        ArchiveType::Bz2,
        ArchiveType::Xz,
    ] {
        let r = extract_archive(tag, &garbage, None);
        assert!(matches!(r.unwrap_err(), Error::Codec { .. }));
    }
}

#[test]
fn test_single_stream_extraction_names() {
    let compressed = {
        let mut enc =
            flate2::write::GzEncoder::new(Vec::new(), flate2::Compression::default());
        enc.write_all(b"payload").unwrap();
        enc.finish().unwrap()
    };
    let ops = extract_archive(ArchiveType::Gz, &compressed, Some("notes.txt.gz")).unwrap();
    assert_eq!(
        writes_of(&ops),
        vec![("notes.txt".to_string(), b"payload".to_vec())]
    );
    let ops = extract_archive(ArchiveType::Gz, &compressed, None).unwrap();
    assert_eq!(
        writes_of(&ops),
        vec![("extracted".to_string(), b"payload".to_vec())]
    );
}

#[test]
fn test_tar_entry_kinds() {
    let bytes = {
        let mut b = tar::Builder::new(Vec::new());
        let mut h = tar::Header::new_gnu();
        h.set_size(5);
        h.set_mode(0o644);
        h.set_cksum();
        b.append_data(&mut h, "target.txt", &b"hello"[..]).unwrap();

        let mut hd = tar::Header::new_gnu();
        hd.set_entry_type(tar::EntryType::Directory);
        hd.set_size(0);
        hd.set_mode(0o755);
        hd.set_cksum();
        b.append_data(&mut hd, "sub", &b""[..]).unwrap();

        let mut hs = tar::Header::new_gnu();
        hs.set_entry_type(tar::EntryType::Symlink);
        hs.set_size(0);
        b.append_link(&mut hs, "link.txt", "target.txt").unwrap();

        let mut hl = tar::Header::new_gnu();
        hl.set_entry_type(tar::EntryType::Link);
        hl.set_size(0);
        b.append_link(&mut hl, "hard.txt", "target.txt").unwrap();

        let mut hm = tar::Header::new_gnu();
        hm.set_entry_type(tar::EntryType::Link);
        hm.set_size(0);
        b.append_link(&mut hm, "dangling.txt", "missing.txt")
            .unwrap();

        b.into_inner().unwrap()
    };

    let ops = extract_archive(ArchiveType::Tar, &bytes, None).unwrap();
    let mut saw_symlink = false;
    let mut saw_dir = false;
    for op in &ops {
        match op {
            ExtractOp::MakeSymlink { path, target } => {
                assert_eq!(path, "link.txt");
                assert_eq!(target, "target.txt");
                saw_symlink = true;
            }
            ExtractOp::MakeDir { path } => {
                assert_eq!(path, "sub");
                saw_dir = true;
            }
            ExtractOp::WriteFile { .. } => {}
        }
    }
    assert!(saw_symlink);
    assert!(saw_dir);
    let writes = writes_of(&ops);
    assert_eq!(
        writes,
        vec![
            ("target.txt".to_string(), b"hello".to_vec()),
            ("hard.txt".to_string(), b"hello".to_vec()),
        ]
    );
    let listed = written_file_paths(&ops);
    assert_eq!(listed, vec!["target.txt".to_string(), "hard.txt".to_string()]);
}

#[test]
fn test_zip_scenario() {
    let mut builder = ZipArchiveBuilder::new_in_memory();
    builder.add_file_from_memory("a.txt", b"hello");
    builder.add_file_from_memory("dir/b.txt", b"world");
    builder.add_directory("dir/empty");
    let bytes = builder.finish().unwrap();

    let ops = extract_archive(ArchiveType::Zip, &bytes, None).unwrap();
    let rel = written_file_paths(&ops);
    assert_eq!(rel, vec!["a.txt".to_string(), "dir/b.txt".to_string()]);

    let root = "/scratch/zip-scenario";
    let abs: Vec<String> = rel.iter().map(|p| format!("{}/{}", root, p)).collect();
    let session = ArchiveHandler::new(ArchiveType::Zip, None, root.to_string(), abs);
    assert_eq!(session.file_count(), 2);
    assert!(!session.is_empty());
    assert_eq!(session.find_files_by_extension("txt").len(), 2);
    assert_eq!(session.find_files_by_extension("TXT").len(), 2);
    assert!(!session.contains_file("dir/empty"));
    assert!(session.contains_file("a.txt"));
    assert_eq!(
        session.read_file_path("a.txt").unwrap(),
        "/scratch/zip-scenario/a.txt"
    );
    assert!(matches!(
        session.read_file_path("nope.txt").unwrap_err(),
        Error::EntryNotFound { .. }
    ));
    assert_eq!(
        session.relative_file_paths().unwrap(),
        vec!["a.txt".to_string(), "dir/b.txt".to_string()]
    );
}

#[test]
fn test_zip_handler_from_memory() {
    let mut builder = ZipArchiveBuilder::new_in_memory();
    builder.add_file_from_memory("test.txt", b"Hello, World!");
    let data = builder.finish().unwrap();

    let handler = ZipArchiveHandler::from_memory(&data);
    assert!(handler.is_ok());

    let handler = handler.unwrap();
    assert_eq!(handler.len(), 1);
    assert!(!handler.is_empty());
    assert!(handler.contains_file("test.txt"));
    assert_eq!(handler.read_file("test.txt").unwrap(), b"Hello, World!");
    assert!(matches!(
        handler.read_file("missing.txt").unwrap_err(),
        Error::EntryNotFound { .. }
    ));
    assert_eq!(handler.file_names(), vec!["test.txt".to_string()]);
}

#[test]
fn test_zip_handler_invalid_type() {
    let handler = ZipArchiveHandler::new(&[], ArchiveType::Tar);
    assert!(handler.is_err());
}

#[test]
fn test_zip_builder_creation() {
    let builder = ZipArchiveBuilder::new_in_memory();
    assert_eq!(builder.archive_type(), ArchiveType::Zip);
}

#[test]
fn test_zip_builder_in_memory() {
    let mut builder = ZipArchiveBuilder::new_in_memory();
    builder.add_file_from_memory("test.txt", b"Hello, World!");
    builder.add_directory("subdir");
    let data = builder.finish().unwrap();
    assert!(!data.is_empty());
    let handler = ZipArchiveHandler::from_memory(&data).unwrap();
    assert_eq!(handler.len(), 2);
    assert!(handler.contains_file("subdir/"));
}

#[test]
fn test_zip_builder_streaming_writes() {
    let mut builder = ZipArchiveBuilder::new_in_memory();
    assert!(builder.write_all(b"early").is_err());
    builder.start_file("streamed.txt");
    builder.write_all(b"part one, ").unwrap();
    builder.write_all(b"part two").unwrap();
    builder.set_comment("archive comment".to_string());
    let data = builder.finish().unwrap();

    let handler = ZipArchiveHandler::from_memory(&data).unwrap();
    assert_eq!(
        handler.read_file("streamed.txt").unwrap(),
        b"part one, part two"
    );
    assert_eq!(handler.comment(), "archive comment");
}

#[test]
fn test_zip_list_entries() {
    let mut builder = ZipArchiveBuilder::new_in_memory();
    builder.add_file_from_memory("a.txt", b"hello");
    builder.add_directory("d");
    let data = builder.finish().unwrap();
    let handler = ZipArchiveHandler::from_memory(&data).unwrap();
    let infos = handler.list_entries();
    assert_eq!(infos.len(), 2);
    assert_eq!(infos[0].name, "a.txt");
    assert_eq!(infos[0].size, 5);
    assert!(infos[0].is_file);
    assert!(!infos[0].is_dir);
    assert_eq!(infos[1].name, "d/");
    assert!(infos[1].is_dir);
}

#[test]
fn test_tar_handler_creation() {
    let handler = TarArchiveHandler::new(Vec::new(), ArchiveType::Tar);
    assert!(handler.is_ok());
}

#[test]
fn test_tar_handler_invalid_type() {
    let handler = TarArchiveHandler::new(Vec::new(), ArchiveType::Zip);
    assert!(handler.is_err());
}

#[test]
fn test_tar_builder_creation() {
    let builder = TarArchiveBuilder::new(ArchiveType::Tar);
    assert!(builder.is_ok());
    assert!(TarArchiveBuilder::new(ArchiveType::Zip).is_err());
}

#[test]
fn test_compressed_builder_creation() {
    let builder = TarArchiveBuilder::compressed(ArchiveType::TarGz);
    assert!(builder.is_ok());
    assert!(TarArchiveBuilder::compressed(ArchiveType::Gz).is_err());
}

#[test]
fn test_tar_builder_and_handler() {
    let mut builder = TarArchiveBuilder::new(ArchiveType::TarGz).unwrap();
    builder.append_data("f/one.txt".to_string(), b"first".to_vec());
    builder.append_data("two.txt".to_string(), b"second".to_vec());
    let bytes = builder.finish().unwrap();

    let handler = TarArchiveHandler::from_compressed_data(bytes, ArchiveType::TarGz).unwrap();
    let infos = handler.list_entries().unwrap();
    assert_eq!(infos.len(), 2);
    assert_eq!(infos[0].path, "f/one.txt");
    assert_eq!(infos[0].size, 5);
    assert_eq!(infos[0].mode, 0o644);
    let ops = handler.extract_ops().unwrap();
    assert_eq!(
        writes_of(&ops),
        vec![
            ("f/one.txt".to_string(), b"first".to_vec()),
            ("two.txt".to_string(), b"second".to_vec()),
        ]
    );
}

#[test]
fn test_pack_type_override() {
    assert_eq!(
        resolve_pack_type("out.tar", ArchiveType::Zip),
        ArchiveType::Tar
    );
    assert_eq!(
        resolve_pack_type("out.unknown", ArchiveType::Zip),
        ArchiveType::Zip
    );
    assert_eq!(
        resolve_pack_type("out.tar.gz", ArchiveType::Zip),
        ArchiveType::TarGz
    );

    let root = "/scratch/pack";
    let walked = vec![
        file_entry("/scratch/pack/b.txt", b"bee"),
        file_entry("/scratch/pack/a.txt", b"ay"),
    ];
    let plan = plan_pack(ArchiveType::Zip, root, "out.tar", &walked).unwrap();
    assert_eq!(plan.target_type, ArchiveType::Tar);
    assert_eq!(plan.entries.len(), 2);
    assert_eq!(plan.entries[0].path, "a.txt");
    assert_eq!(plan.entries[1].path, "b.txt");

    let ops = extract_archive(ArchiveType::Tar, &plan.bytes, None).unwrap();
    let mut writes = writes_of(&ops);
    writes.sort();
    assert_eq!(
        writes,
        vec![
            ("a.txt".to_string(), b"ay".to_vec()),
            ("b.txt".to_string(), b"bee".to_vec()),
        ]
    );
}

#[test]
fn test_pack_rejects_single_stream_target() {
    let walked = vec![file_entry("/scratch/p/a.txt", b"x")];
    let r = plan_pack(ArchiveType::Zip, "/scratch/p", "out.gz", &walked);
    assert!(matches!(r.unwrap_err(), Error::UnsupportedFormat { .. }));
}

#[test]
fn test_pack_rejects_stray_files() {
    let walked = vec![file_entry("/elsewhere/a.txt", b"x")];
    let r = plan_pack(ArchiveType::Zip, "/scratch/p", "out.zip", &walked);
    assert!(matches!(r.unwrap_err(), Error::Io { .. }));
}

#[test]
fn test_archive_handler_creation() {
    let files = vec!["/scratch/s/test.txt".to_string()];
    let handler = ArchiveHandler::new(
        ArchiveType::Zip,
        Some("test.zip".to_string()),
        "/scratch/s".to_string(),
        files,
    );

    assert_eq!(handler.archive_type, ArchiveType::Zip);
    assert_eq!(handler.file_count(), 1);
    assert!(!handler.is_empty());
}

#[test]
fn test_empty_archive_handler() {
    let handler = ArchiveHandler::new(ArchiveType::Zip, None, "/scratch/s".to_string(), vec![]);

    assert_eq!(handler.file_count(), 0);
    assert!(handler.is_empty());
}

#[test]
fn test_find_files_by_extension() {
    let files = vec![
        "/scratch/s/test.txt".to_string(),
        "/scratch/s/data.json".to_string(),
        "/scratch/s/image.png".to_string(),
    ];
    let handler = ArchiveHandler::new(ArchiveType::Zip, None, "/scratch/s".to_string(), files);

    let txt_files = handler.find_files_by_extension("txt");
    assert_eq!(txt_files.len(), 1);

    let json_files = handler.find_files_by_extension("json");
    assert_eq!(json_files.len(), 1);
}

#[test]
fn test_iterator() {
    let files = vec![
        "/scratch/s/file1.txt".to_string(),
        "/scratch/s/file2.txt".to_string(),
    ];
    let handler = ArchiveHandler::new(ArchiveType::Zip, None, "/scratch/s".to_string(), files);

    let collected: Vec<&String> = handler.file_paths().iter().collect();
    assert_eq!(collected.len(), 2);
}

#[test]
fn test_record_and_refresh() {
    let mut handler =
        ArchiveHandler::new(ArchiveType::Zip, None, "/scratch/s".to_string(), vec![]);
    let recorded = handler.record_file("b.txt");
    assert_eq!(recorded, "/scratch/s/b.txt");
    handler.record_file("a.txt");
    handler.record_file("b.txt");
    assert_eq!(
        handler.file_paths(),
        &vec!["/scratch/s/a.txt".to_string(), "/scratch/s/b.txt".to_string()]
    );
    assert!(handler.contains_file("a.txt"));

    let scan = vec![
        "/scratch/s/z.txt".to_string(),
        "/scratch/s/a.txt".to_string(),
        "/scratch/s/z.txt".to_string(),
    ];
    handler.refresh_file_list(scan.clone());
    let first = handler.file_paths().clone();
    handler.refresh_file_list(scan);
    assert_eq!(handler.file_paths(), &first);
    assert_eq!(
        first,
        vec!["/scratch/s/a.txt".to_string(), "/scratch/s/z.txt".to_string()]
    );
}

#[test]
fn test_session_file_list_is_sorted_and_deduplicated() {
    let files = vec![
        "/scratch/s/c.txt".to_string(),
        "/scratch/s/a.txt".to_string(),
        "/scratch/s/b.txt".to_string(),
        "/scratch/s/a.txt".to_string(),
    ];
    let handler = ArchiveHandler::new(ArchiveType::Tar, None, "/scratch/s".to_string(), files);
    assert_eq!(
        handler.file_paths(),
        &vec![
            "/scratch/s/a.txt".to_string(),
            "/scratch/s/b.txt".to_string(),
            "/scratch/s/c.txt".to_string(),
        ]
    );
    let consumed = handler.into_files();
    assert_eq!(consumed.len(), 3);
}

#[test]
fn test_relative_paths_require_descendants() {
    let files = vec!["/other/root/file.txt".to_string()];
    let handler = ArchiveHandler::new(ArchiveType::Tar, None, "/scratch/s".to_string(), files);
    assert!(matches!(
        handler.relative_file_paths().unwrap_err(),
        Error::Other { .. }
    ));
}

#[test]
fn test_entry_info() {
    let info = nvisy::handlers::TarEntryInfo {
        path: "test.txt".to_string(),
        size: 100,
        entry_type: nvisy::entry::EntryKind::Regular,
        mode: 0o644,
        uid: 1000,
        gid: 1000,
        mtime: 1234567890,
    };

    assert_eq!(info.path, "test.txt");
    assert_eq!(info.size, 100);
    assert_eq!(info.mode, 0o644);
}

#[test]
fn zip_entry_info_fields() {
    let info = nvisy::handlers::ZipEntryInfo {
        name: "test.txt".to_string(),
        size: 100,
        compressed_size: 80,
        compression_method: 8,
        is_dir: false,
        is_file: true,
        unix_mode: Some(0o644),
        last_modified: None,
        crc32: 12345,
        extra_data: Vec::new(),
        comment: String::new(),
    };

    assert_eq!(info.name, "test.txt");
    assert_eq!(info.size, 100);
    assert_eq!(info.compressed_size, 80);
    assert!(!info.is_dir);
    assert!(info.is_file);
}

#[test]
fn test_zip_extract_operations() {
    let mut builder = ZipArchiveBuilder::new_in_memory();
    builder.add_file_from_memory("file1.txt", b"Content 1");
    builder.add_file_from_memory("file2.txt", b"Content 2");
    builder.add_directory("subdir");
    builder.add_file_from_memory("subdir/file3.txt", b"Content 3");
    let data = builder.finish().unwrap();

    let handler = ZipArchiveHandler::from_memory(&data).unwrap();
    let ops = handler.extract_ops();
    assert_eq!(writes_of(&ops).len(), 3);

    let content = handler.read_file("file1.txt").unwrap();
    assert_eq!(content, b"Content 1");
}

#[test]
fn test_find_files_with_predicate() {
    let files = vec![
        "/scratch/s/notes.txt".to_string(),
        "/scratch/s/data.json".to_string(),
        "/scratch/s/more.txt".to_string(),
    ];
    let handler = ArchiveHandler::new(ArchiveType::Zip, None, "/scratch/s".to_string(), files);
    let found = handler.find_files(|p: &String| p.ends_with(".txt"));
    assert_eq!(
        found,
        vec!["/scratch/s/more.txt".to_string(), "/scratch/s/notes.txt".to_string()]
    );
}

#[test]
fn test_bzip2_single_stream() {
    let compressed = {
        let mut enc = bzip2::write::BzEncoder::new(Vec::new(), bzip2::Compression::default());
        enc.write_all(b"squeeze me").unwrap();
        enc.finish().unwrap()
    };
    let ops = extract_archive(ArchiveType::Bz2, &compressed, Some("dir/report.csv.bz2")).unwrap();
    assert_eq!(
        writes_of(&ops),
        vec![("report.csv".to_string(), b"squeeze me".to_vec())]
    );
}

#[test]
fn test_xz_single_stream() {
    let compressed = {
        let mut enc = xz2::write::XzEncoder::new(Vec::new(), 6);
        enc.write_all(b"tight").unwrap();
        enc.finish().unwrap()
    };
    let ops = extract_archive(ArchiveType::Xz, &compressed, None).unwrap();
    assert_eq!(
        writes_of(&ops),
        vec![("extracted".to_string(), b"tight".to_vec())]
    );
}

#[test]
fn test_zip_write_modes_follow_entries() {
    let mut builder = ZipArchiveBuilder::new_in_memory();
    builder.add_file_from_memory("a.txt", b"hello");
    let bytes = builder.finish().unwrap();

    let handler = ZipArchiveHandler::from_memory(&bytes).unwrap();
    let infos = handler.list_entries();
    let ops = handler.extract_ops();
    assert_eq!(ops.len(), 1);
    match &ops[0] {
        ExtractOp::WriteFile { path, mode, .. } => {
            assert_eq!(path, "a.txt");
            assert_eq!(*mode, infos[0].unix_mode);
        }
        _ => panic!("expected a file write"),
    }
}

#[test]
fn test_for_directory_finish_refuses_non_tar() {
    let builder = TarArchiveBuilder::for_directory(ArchiveType::Zip);
    let r = builder.finish();
    assert!(matches!(r.unwrap_err(), Error::UnsupportedFormat { .. }));

    let builder = TarArchiveBuilder::for_directory(ArchiveType::Tar);
    assert!(builder.finish().is_ok());
}
