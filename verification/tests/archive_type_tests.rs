//! Tests for the format registry and the archive source: extension lookup,
//! compound extensions, case handling, and source construction.

use nvisy::archive_type::ArchiveType;
use nvisy::error::Error;
use nvisy::source::ArchiveFile;

#[test]
fn test_archive_type_from_extension() {
    assert_eq!(
        ArchiveType::from_file_extension("zip"),
        Some(ArchiveType::Zip)
    );
    assert_eq!(
        ArchiveType::from_file_extension("ZIP"),
        Some(ArchiveType::Zip)
    );
    assert_eq!(
        ArchiveType::from_file_extension("tar"),
        Some(ArchiveType::Tar)
    );
    assert_eq!(
        ArchiveType::from_file_extension("tar.gz"),
        Some(ArchiveType::TarGz)
    );
    assert_eq!(
        ArchiveType::from_file_extension("tgz"),
        Some(ArchiveType::TarGz)
    );
    assert_eq!(ArchiveType::from_file_extension("unknown"), None);
}

#[test]
fn test_archive_type_extensions() {
    assert_eq!(ArchiveType::Zip.file_extensions(), &["zip"]);
    assert_eq!(ArchiveType::TarGz.file_extensions(), &["tar.gz", "tgz"]);
    assert!(ArchiveType::TarBz2.file_extensions().contains(&"tar.bz2"));
}

#[test]
fn test_archive_type_primary_extension() {
    assert_eq!(ArchiveType::Zip.primary_extension(), "zip");
    assert_eq!(ArchiveType::TarGz.primary_extension(), "tar.gz");
}

#[test]
fn test_archive_type_variants() {
    assert!(ArchiveType::Tar.is_tar_variant());
    assert!(ArchiveType::TarGz.is_tar_variant());
    assert!(!ArchiveType::Zip.is_tar_variant());
    assert!(!ArchiveType::Gz.is_tar_variant());
}

#[test]
fn test_archive_type_multiple_files() {
    assert!(ArchiveType::Zip.supports_multiple_files());
    assert!(ArchiveType::Tar.supports_multiple_files());
    assert!(!ArchiveType::Gz.supports_multiple_files());
    assert!(!ArchiveType::Bz2.supports_multiple_files());
}

#[test]
fn test_archive_type_display() {
    assert_eq!(ArchiveType::Zip.display_name(), "ZIP");
    assert_eq!(ArchiveType::TarGz.display_name(), "TAR.GZ");
}

#[test]
fn test_all_simple_extensions_resolve() {
    assert_eq!(
        ArchiveType::from_file_extension("tar.bz2"),
        Some(ArchiveType::TarBz2)
    );
    assert_eq!(
        ArchiveType::from_file_extension("tbz2"),
        Some(ArchiveType::TarBz2)
    );
    assert_eq!(
        ArchiveType::from_file_extension("tb2"),
        Some(ArchiveType::TarBz2)
    );
    assert_eq!(
        ArchiveType::from_file_extension("tar.xz"),
        Some(ArchiveType::TarXz)
    );
    assert_eq!(
        ArchiveType::from_file_extension("txz"),
        Some(ArchiveType::TarXz)
    );
    assert_eq!(ArchiveType::from_file_extension("gz"), Some(ArchiveType::Gz));
    assert_eq!(
        ArchiveType::from_file_extension("gzip"),
        Some(ArchiveType::Gz)
    );
    assert_eq!(
        ArchiveType::from_file_extension("bz2"),
        Some(ArchiveType::Bz2)
    );
    assert_eq!(
        ArchiveType::from_file_extension("bzip2"),
        Some(ArchiveType::Bz2)
    );
    assert_eq!(ArchiveType::from_file_extension("xz"), Some(ArchiveType::Xz));
    assert_eq!(
        ArchiveType::from_file_extension("TaR.Bz2"),
        Some(ArchiveType::TarBz2)
    );
    assert_eq!(ArchiveType::from_file_extension(""), None);
    assert_eq!(ArchiveType::from_file_extension("zipp"), None);
}

#[test]
fn test_archive_file_from_memory() {
    let data = vec![0x50, 0x4B, 0x03, 0x04];
    let archive = ArchiveFile::from_memory(ArchiveType::Zip, data);
    assert_eq!(archive.archive_type(), ArchiveType::Zip);
    assert!(archive.path().is_none());
}

#[test]
fn test_archive_file_from_iterator() {
    let data = vec![0x50, 0x4B, 0x03, 0x04];
    let archive = ArchiveFile::from_iterator(ArchiveType::Zip, data);
    assert_eq!(archive.archive_type(), ArchiveType::Zip);
}

#[test]
fn test_archive_file_from_path() {
    let archive = ArchiveFile::from_path("test.zip").unwrap();
    assert_eq!(archive.archive_type(), ArchiveType::Zip);
    assert!(archive.path().is_some());
    assert_eq!(archive.path().unwrap(), "test.zip");
}

#[test]
fn test_compound_extension() {
    let archive = ArchiveFile::from_path("test.tar.gz").unwrap();
    assert_eq!(archive.archive_type(), ArchiveType::TarGz);
}

#[test]
fn test_compound_resolves_before_simple() {
    let a = ArchiveFile::from_path("archive.tar.gz").unwrap();
    assert_eq!(a.archive_type(), ArchiveType::TarGz);
    let b = ArchiveFile::from_path("archive.tgz").unwrap();
    assert_eq!(b.archive_type(), ArchiveType::TarGz);
    let c = ArchiveFile::from_path("dir.tar.gz/archive.tar.bz2").unwrap();
    assert_eq!(c.archive_type(), ArchiveType::TarBz2);
    let d = ArchiveFile::from_path("archive.gz").unwrap();
    assert_eq!(d.archive_type(), ArchiveType::Gz);
}

#[test]
fn test_unsupported_extension() {
    let result = ArchiveFile::from_path("test.unknown");
    assert!(result.is_err());
    assert!(matches!(
        result.unwrap_err(),
        Error::UnsupportedFormat { .. }
    ));
}

#[test]
fn test_missing_extension() {
    let result = ArchiveFile::from_path("archive");
    assert!(matches!(result.unwrap_err(), Error::InvalidArchive { .. }));
}

#[test]
fn test_with_archive_type_override() {
    let archive =
        ArchiveFile::from_memory(ArchiveType::Zip, vec![1, 2, 3]).with_archive_type(ArchiveType::Tar);
    assert_eq!(archive.archive_type(), ArchiveType::Tar);
    assert_eq!(archive.buffered_data().unwrap(), &vec![1u8, 2, 3]);
}

#[test]
fn test_error_creation() {
    let error = Error::unsupported_format("custom".to_string());
    assert!(matches!(error, Error::UnsupportedFormat { .. }));

    let error = Error::invalid_archive("test message".to_string());
    assert!(matches!(error, Error::InvalidArchive { .. }));

    let error = Error::entry_not_found("missing.txt".to_string());
    assert!(matches!(error, Error::EntryNotFound { .. }));

    let error = Error::permission_denied("access denied".to_string());
    assert!(matches!(error, Error::PermissionDenied { .. }));

    let error = Error::corrupted("bad data".to_string());
    assert!(matches!(error, Error::Corrupted { .. }));

    let error = Error::resource_limit("too big".to_string());
    assert!(matches!(error, Error::ResourceLimit { .. }));

    let error = Error::other("generic error".to_string());
    assert!(matches!(error, Error::Other { .. }));
}
