//! Content type classification for different categories of data.

use vstd::prelude::*;

use crate::supported_format::{spec_content_kind, spec_format_for_extension, SupportedFormat};

verus! {

/// Content type classification for different categories of data.
#[derive(Debug, Clone, Copy, PartialEq, Eq, Hash, Structural)]
pub enum ContentKind {
    /// Plain text content.
    Text,
    /// Document files (PDF, Word, and the like).
    Document,
    /// Image files.
    Image,
    /// Unknown or unsupported content type.
    Unknown,
}

/// The content kind an extension resolves to: the kind of its format, or
/// `Unknown` for an unrecognized extension.
pub open spec fn spec_kind_for_extension(e: Seq<char>) -> ContentKind {
    match spec_format_for_extension(e) {
        Some(f) => spec_content_kind(f),
        None => ContentKind::Unknown,
    }
}

/// The lowercase name of each content kind.
pub open spec fn spec_kind_name(k: ContentKind) -> Seq<char> {
    match k {
        ContentKind::Text => "text"@,
        ContentKind::Document => "document"@,
        ContentKind::Image => "image"@,
        ContentKind::Unknown => "unknown"@,
    }
}

/// The extensions of all formats of a kind, in format order, duplicates
/// kept; the unknown kind has none.
pub open spec fn spec_kind_extensions(k: ContentKind) -> Seq<Seq<char>> {
    match k {
        ContentKind::Text => seq!["txt"@, "text"@, "xml"@, "json"@, "csv"@],
        ContentKind::Document => seq!["pdf"@, "doc"@, "docx"@, "rtf"@],
        ContentKind::Image => seq!["jpg"@, "jpeg"@, "jpeg"@, "jpg"@, "png"@, "svg"@],
        ContentKind::Unknown => seq![],
    }
}

impl Default for ContentKind {
    /// The default content kind is `Unknown`.
    fn default() -> (r: ContentKind)
        ensures
            r == ContentKind::Unknown,
    {
        ContentKind::Unknown
    }
}

impl ContentKind {
    /// Detects the content kind from a file extension, without regard to
    /// ASCII case.
    pub fn from_file_extension(extension: &str) -> (r: ContentKind)
        ensures
            r == spec_kind_for_extension(extension@),
    {
        match SupportedFormat::from_extension(extension) {
            Some(format) => format.content_kind(),
            None => ContentKind::Unknown,
        }
    }

    /// True when this content kind is text-based.
    pub fn is_text_based(&self) -> (r: bool)
        ensures
            r <==> *self == ContentKind::Text,
    {
        matches!(self, ContentKind::Text)
    }

    /// The supported file extensions of this content kind: those of its
    /// formats, in format order.
    pub fn file_extensions(&self) -> (r: Vec<&'static str>)
        ensures
            r@.len() == spec_kind_extensions(*self).len(),
            forall|i: int| 0 <= i < r@.len() ==> r@[i]@ == spec_kind_extensions(*self)[i],
    {
        let mut v: Vec<&'static str> = Vec::new();
        match self {
            ContentKind::Text => {
                v.push("txt");
                v.push("text");
                v.push("xml");
                v.push("json");
                v.push("csv");
            },
            ContentKind::Document => {
                v.push("pdf");
                v.push("doc");
                v.push("docx");
                v.push("rtf");
            },
            ContentKind::Image => {
                v.push("jpg");
                v.push("jpeg");
                v.push("jpeg");
                v.push("jpg");
                v.push("png");
                v.push("svg");
            },
            ContentKind::Unknown => {},
        }
        v
    }

    /// The lowercase name of the kind.
    pub fn as_str(&self) -> (r: &'static str)
        ensures
            r@ == spec_kind_name(*self),
    {
        match self {
            ContentKind::Text => "text",
            ContentKind::Document => "document",
            ContentKind::Image => "image",
            ContentKind::Unknown => "unknown",
        }
    }
}

} // verus!
