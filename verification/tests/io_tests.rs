//! Tests for content values, content data (digesting, hex, UTF-8,
//! slicing) and data references.

use nvisy::content::Content;
use nvisy::content_data::ContentData;
use nvisy::content_metadata::ContentSource;
use nvisy::data_reference::DataReference;

#[test]
fn test_content_types() {
    let text = Content::text("Hello".to_string());
    assert!(text.is_textual());
    assert!(!text.is_multimedia());
    assert!(!text.has_binary_data());
    assert_eq!(text.kind_name(), "text");
    assert_eq!(text.format(), Some("text/plain"));

    let binary_data = vec![1u8, 2, 3, 4];
    let binary = Content::binary(binary_data, "application/octet-stream".to_string());
    assert!(!binary.is_textual());
    assert!(!binary.is_multimedia());
    assert!(binary.has_binary_data());
    assert_eq!(binary.kind_name(), "binary");
    assert_eq!(binary.format(), Some("application/octet-stream"));
}

#[test]
fn test_content_size_estimation() {
    let text = Content::text("Hello, world!".to_string());
    assert_eq!(text.estimated_size(), 13);

    let binary = Content::binary(vec![0u8; 100], "application/octet-stream".to_string());
    assert_eq!(binary.estimated_size(), 100);

    let empty = Content::Empty;
    assert_eq!(empty.estimated_size(), 0);
    assert_eq!(empty.kind_name(), "empty");
    assert_eq!(empty.format(), None);
}

#[test]
fn test_content_data_access() {
    let text_content = Content::text("Hello".to_string());
    assert_eq!(text_content.as_text(), Some("Hello"));
    assert!(text_content.as_bytes().is_none());

    let binary_data = vec![1u8, 2, 3];
    let binary_content = Content::binary(binary_data.clone(), "test".to_string());
    assert_eq!(binary_content.as_bytes(), Some(&binary_data));
    assert!(binary_content.as_text().is_none());
}

#[test]
fn test_content_data_creation() {
    let source = ContentSource::new();
    let content = ContentData::new(source, b"Hello, world!".to_vec());

    assert_eq!(content.content_source, source);
    assert_eq!(content.size(), 13);
}

#[test]
fn test_size_methods() {
    let content = ContentData::from_text("Hello");
    assert_eq!(content.size(), 5);
    assert!(!content.is_empty());
}

#[test]
fn test_sha256_computation() {
    let content = ContentData::from_text("Hello, world!");
    let hash = content.compute_sha256();

    assert_eq!(hash.len(), 32);

    let hash2 = content.sha256();
    assert_eq!(hash, hash2);
}

#[test]
fn test_sha256_known_vector() {
    let content = ContentData::from_text("abc");
    assert_eq!(
        content.sha256_hex(),
        "ba7816bf8f01cfea414140de5dae2223b00361a396177a9cb410ff61f20015ad"
    );
    let empty = ContentData::from_text("");
    assert_eq!(
        empty.sha256_hex(),
        "e3b0c44298fc1c149afbf4c8996fb92427ae41e4649b934ca495991b7852b855"
    );
}

#[test]
fn test_sha256_verification() {
    let content = ContentData::from_text("Hello, world!");
    let hash = content.compute_sha256();

    assert!(content.verify_sha256(&hash).is_ok());

    let wrong_hash = vec![0u8; 32];
    assert!(content.verify_sha256(&wrong_hash).is_err());
}

#[test]
fn test_string_conversion() {
    let content = ContentData::from_text("Hello, world!");
    assert_eq!(content.as_string().unwrap(), "Hello, world!");
    assert_eq!(content.as_str().unwrap(), "Hello, world!");

    let binary_content = ContentData::from_vec(vec![0xFF, 0xFE, 0xFD]);
    assert!(binary_content.as_string().is_err());
    assert!(binary_content.as_str().is_err());
}

#[test]
fn test_is_likely_text() {
    let text_content = ContentData::from_text("Hello, world!");
    assert!(text_content.is_likely_text());

    let binary_content = ContentData::from_vec(vec![0xFF, 0xFE, 0xFD]);
    assert!(!binary_content.is_likely_text());
}

#[test]
fn test_slice() {
    let content = ContentData::from_text("Hello, world!");

    let slice = content.slice(0, 5).unwrap();
    assert_eq!(slice, b"Hello".to_vec());

    let slice = content.slice(7, 12).unwrap();
    assert_eq!(slice, b"world".to_vec());

    assert!(content.slice(0, 100).is_err());
    assert!(content.slice(10, 5).is_err());
}

#[test]
fn test_into_bytes() {
    let content = ContentData::from_text("Hello, world!");
    let bytes = content.into_bytes();
    assert_eq!(bytes, b"Hello, world!".to_vec());
}

#[test]
fn test_empty_content() {
    let content = ContentData::from_text("");
    assert!(content.is_empty());
    assert_eq!(content.size(), 0);
}

#[test]
fn test_data_reference_creation() {
    let content = Content::text("Hello, world!".to_string());
    let data_ref = DataReference::new(content);

    assert_eq!(data_ref.content_kind_name(), "text");
    assert!(data_ref.mapping_id().is_none());
    assert_eq!(data_ref.estimated_size(), 13);
}

#[test]
fn test_data_reference_with_mapping() {
    let content = Content::text("Test content".to_string());
    let data_ref = DataReference::new(content).with_mapping_id("line-42".to_string());

    assert_eq!(data_ref.mapping_id(), Some("line-42"));
}

#[test]
fn test_data_reference_with_source_id() {
    let content = Content::text("x".to_string());
    let data_ref = DataReference::with_source_id(7, content);
    assert_eq!(data_ref.source_id(), 7);
    assert_eq!(data_ref.content().as_text(), Some("x"));
}
