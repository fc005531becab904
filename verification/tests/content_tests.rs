//! Tests for the content classification: kinds, formats, sensitivity and
//! structure levels, and path-based metadata.

use nvisy::content_kind::ContentKind;
use nvisy::content_metadata::{ContentFileMetadata, ContentMetadata, ContentSource};
use nvisy::data_sensitivity::DataSensitivity;
use nvisy::data_structure_kind::DataStructureKind;
use nvisy::supported_format::SupportedFormat;

#[test]
fn test_content_kind_from_extension() {
    assert_eq!(ContentKind::from_file_extension("txt"), ContentKind::Text);
    assert_eq!(ContentKind::from_file_extension("TXT"), ContentKind::Text);
    assert_eq!(ContentKind::from_file_extension("pdf"), ContentKind::Document);
    assert_eq!(ContentKind::from_file_extension("png"), ContentKind::Image);
    assert_eq!(
        ContentKind::from_file_extension("unknown"),
        ContentKind::Unknown
    );
}

#[test]
fn test_content_kind_file_extensions() {
    let extensions = ContentKind::Image.file_extensions();
    assert!(extensions.contains(&"png"));
    assert!(extensions.contains(&"jpg"));

    let txt_extensions = ContentKind::Text.file_extensions();
    assert!(txt_extensions.contains(&"txt"));
}

#[test]
fn test_content_kind_display() {
    assert_eq!(ContentKind::Text.as_str(), "text");
    assert_eq!(ContentKind::Document.as_str(), "document");
    assert_eq!(ContentKind::Image.as_str(), "image");
    assert_eq!(ContentKind::Unknown.as_str(), "unknown");
}

#[test]
fn test_content_kind_text_classification() {
    assert!(ContentKind::Text.is_text_based());
    assert!(!ContentKind::Document.is_text_based());
    assert!(!ContentKind::Unknown.is_text_based());
    assert!(!ContentKind::Image.is_text_based());
}

#[test]
fn test_case_insensitive_extension_detection() {
    assert_eq!(ContentKind::from_file_extension("TXT"), ContentKind::Text);
    assert_eq!(ContentKind::from_file_extension("PDF"), ContentKind::Document);
    assert_eq!(ContentKind::from_file_extension("PNG"), ContentKind::Image);
}

#[test]
fn test_default() {
    assert_eq!(ContentKind::default(), ContentKind::Unknown);
}

#[test]
fn test_content_kind_classification() {
    assert_eq!(SupportedFormat::Txt.content_kind(), ContentKind::Text);
    assert_eq!(SupportedFormat::Json.content_kind(), ContentKind::Text);
    assert_eq!(SupportedFormat::Pdf.content_kind(), ContentKind::Document);
    assert_eq!(SupportedFormat::Png.content_kind(), ContentKind::Image);
}

#[test]
fn test_extension_detection() {
    assert_eq!(
        SupportedFormat::from_extension("txt"),
        Some(SupportedFormat::Txt)
    );
    assert_eq!(
        SupportedFormat::from_extension("TXT"),
        Some(SupportedFormat::Txt)
    );
    assert_eq!(
        SupportedFormat::from_extension("jpeg"),
        Some(SupportedFormat::Jpeg)
    );
    assert_eq!(
        SupportedFormat::from_extension("jpg"),
        Some(SupportedFormat::Jpeg)
    );
    assert_eq!(SupportedFormat::from_extension("unknown"), None);
}

#[test]
fn test_format_predicates() {
    assert!(SupportedFormat::Txt.is_text());
    assert!(!SupportedFormat::Txt.is_document());
    assert!(!SupportedFormat::Txt.is_image());

    assert!(!SupportedFormat::Pdf.is_text());
    assert!(SupportedFormat::Pdf.is_document());
    assert!(!SupportedFormat::Pdf.is_image());

    assert!(!SupportedFormat::Png.is_text());
    assert!(!SupportedFormat::Png.is_document());
    assert!(SupportedFormat::Png.is_image());
}

#[test]
fn test_extensions() {
    assert!(SupportedFormat::Txt.extensions().contains(&"txt"));
    assert!(SupportedFormat::Jpeg.extensions().contains(&"jpg"));
    assert!(SupportedFormat::Jpeg.extensions().contains(&"jpeg"));
}

#[test]
fn test_mime_types() {
    assert_eq!(SupportedFormat::Txt.mime_type(), "text/plain");
    assert_eq!(SupportedFormat::Json.mime_type(), "application/json");
    assert_eq!(SupportedFormat::Pdf.mime_type(), "application/pdf");
    assert_eq!(SupportedFormat::Png.mime_type(), "image/png");
}

#[test]
fn test_format_descriptions() {
    assert_eq!(SupportedFormat::Txt.description(), "Plain text file");
    assert_eq!(SupportedFormat::Svg.description(), "SVG vector image");
    assert_eq!(SupportedFormat::Txt.primary_extension(), "txt");
    assert_eq!(SupportedFormat::Jpeg.primary_extension(), "jpeg");
}

#[test]
fn test_ordering() {
    assert!(DataSensitivity::High > DataSensitivity::Medium);
    assert!(DataSensitivity::Medium > DataSensitivity::Low);
    assert!(DataSensitivity::Low > DataSensitivity::NoSensitivity);
}

#[test]
fn test_levels() {
    assert_eq!(DataSensitivity::NoSensitivity.level(), 0);
    assert_eq!(DataSensitivity::Low.level(), 1);
    assert_eq!(DataSensitivity::Medium.level(), 2);
    assert_eq!(DataSensitivity::High.level(), 3);
}

#[test]
fn test_from_level() {
    assert_eq!(
        DataSensitivity::from_level(0),
        Some(DataSensitivity::NoSensitivity)
    );
    assert_eq!(DataSensitivity::from_level(4), None);
}

#[test]
fn test_requirements() {
    let none = DataSensitivity::NoSensitivity;
    let low = DataSensitivity::Low;
    let medium = DataSensitivity::Medium;
    let high = DataSensitivity::High;

    assert!(!none.requires_special_handling());
    assert!(!low.requires_special_handling());
    assert!(!medium.requires_special_handling());
    assert!(high.requires_special_handling());

    assert!(!none.requires_encryption());
    assert!(!low.requires_encryption());
    assert!(medium.requires_encryption());
    assert!(high.requires_encryption());

    assert!(!none.requires_access_logging());
    assert!(!low.requires_access_logging());
    assert!(!medium.requires_access_logging());
    assert!(high.requires_access_logging());

    assert!(!none.requires_compliance_oversight());
    assert!(!low.requires_compliance_oversight());
    assert!(!medium.requires_compliance_oversight());
    assert!(high.requires_compliance_oversight());
}

#[test]
fn test_retention_periods() {
    assert_eq!(DataSensitivity::NoSensitivity.max_retention_days(), None);
    assert_eq!(DataSensitivity::Low.max_retention_days(), Some(2555));
    assert_eq!(DataSensitivity::Medium.max_retention_days(), Some(1095));
    assert_eq!(DataSensitivity::High.max_retention_days(), Some(90));
}

#[test]
fn data_sensitivity_test_display() {
    assert_eq!(DataSensitivity::High.as_str(), "High");
    assert_eq!(DataSensitivity::NoSensitivity.as_str(), "None");
}

#[test]
fn test_all_levels() {
    let all = DataSensitivity::all();
    assert_eq!(all.len(), 4);
    assert_eq!(all[0], DataSensitivity::NoSensitivity);
    assert_eq!(all[3], DataSensitivity::High);
}

#[test]
fn test_structure_characteristics() {
    let highly_structured = DataStructureKind::HighlyStructured;
    assert!(highly_structured.has_schema());
    assert!(highly_structured.is_queryable());
    assert!(highly_structured.has_predictable_parsing());

    let unstructured = DataStructureKind::Unstructured;
    assert!(!unstructured.has_schema());
    assert!(!unstructured.is_queryable());
    assert!(!unstructured.has_predictable_parsing());

    let highly_structured = DataStructureKind::HighlyStructured;
    assert!(highly_structured.supports_relationships());
    assert!(highly_structured.has_schema());
    assert_eq!(
        highly_structured.base_sensitivity_level(),
        DataSensitivity::Low
    );
}

#[test]
fn test_content_metadata_creation() {
    let source = ContentSource::new();
    let metadata = ContentMetadata::new(source);

    assert_eq!(metadata.content_source, source);
    assert!(metadata.source_path.is_none());
    assert!(!metadata.has_path());
}

#[test]
fn test_content_metadata_with_path() {
    let source = ContentSource::new();
    let metadata = ContentMetadata::with_path(source, "/path/to/document.pdf".to_string());

    assert_eq!(metadata.content_source, source);
    assert_eq!(
        metadata.source_path,
        Some("/path/to/document.pdf".to_string())
    );
    assert!(metadata.has_path());
}

#[test]
fn test_file_extension_detection() {
    let source = ContentSource::new();
    let metadata = ContentMetadata::with_path(source, "document.pdf".to_string());

    assert_eq!(metadata.file_extension(), Some("pdf"));
    assert_eq!(metadata.content_kind(), ContentKind::Document);
}

#[test]
fn test_metadata_filename() {
    let source = ContentSource::new();
    let metadata = ContentMetadata::with_path(source, "/path/to/file.txt".to_string());

    assert_eq!(metadata.filename(), Some("file.txt"));
}

#[test]
fn test_metadata_parent_directory() {
    let source = ContentSource::new();
    let metadata = ContentMetadata::with_path(source, "/path/to/file.txt".to_string());

    assert_eq!(metadata.parent_directory(), Some("/path/to"));
}

#[test]
fn test_path_operations() {
    let source = ContentSource::new();
    let mut metadata = ContentMetadata::new(source);

    assert!(!metadata.has_path());

    metadata.set_path("test.txt".to_string());
    assert!(metadata.has_path());
    assert_eq!(metadata.filename(), Some("test.txt"));

    metadata.clear_path();
    assert!(!metadata.has_path());
    assert_eq!(metadata.filename(), None);
}

#[test]
fn test_supported_format_detection() {
    let source = ContentSource::new();
    let metadata = ContentMetadata::with_path(source, "image.png".to_string());

    assert_eq!(metadata.supported_format(), Some(SupportedFormat::Png));
}

#[test]
fn test_content_file_metadata() {
    let source = ContentSource::new();
    let path = "test.txt".to_string();

    let metadata = ContentFileMetadata::new(source, path.clone())
        .with_content_kind(ContentKind::Text)
        .with_size(1024);

    assert_eq!(metadata.content_source, source);
    assert_eq!(metadata.path, path);
    assert_eq!(metadata.content_kind, Some(ContentKind::Text));
    assert_eq!(metadata.size, Some(1024));
}
