//! Supported file format definitions: identifying and categorizing the
//! file formats known to the content classification.

use vstd::prelude::*;

use crate::content_kind::ContentKind;
use crate::data_structure_kind::DataStructureKind;
use crate::text::{ci_eq, ci_str_eq};

verus! {

/// Individual supported formats with their categories.
#[derive(Debug, Clone, Copy, PartialEq, Eq, Hash, Structural)]
pub enum SupportedFormat {
    /// Plain text files (.txt)
    Txt,
    /// XML documents (.xml)
    Xml,
    /// JSON data files (.json)
    Json,
    /// Comma-separated values (.csv)
    Csv,
    /// PDF documents (.pdf)
    Pdf,
    /// Microsoft Word legacy format (.doc)
    Doc,
    /// Microsoft Word modern format (.docx)
    Docx,
    /// Rich Text Format (.rtf)
    Rtf,
    /// JPEG images (.jpg)
    Jpg,
    /// JPEG images (.jpeg)
    Jpeg,
    /// PNG images (.png)
    Png,
    /// SVG vector graphics (.svg)
    Svg,
}

/// The content kind of each format.
pub open spec fn spec_content_kind(f: SupportedFormat) -> ContentKind {
    match f {
        SupportedFormat::Txt | SupportedFormat::Xml | SupportedFormat::Json
            | SupportedFormat::Csv => ContentKind::Text,
        SupportedFormat::Pdf | SupportedFormat::Doc | SupportedFormat::Docx
            | SupportedFormat::Rtf => ContentKind::Document,
        SupportedFormat::Jpg | SupportedFormat::Jpeg | SupportedFormat::Png
            | SupportedFormat::Svg => ContentKind::Image,
    }
}

/// The format an extension resolves to, without regard to ASCII case.
/// Both JPEG extensions resolve to the `Jpeg` format.
pub open spec fn spec_format_for_extension(e: Seq<char>) -> Option<SupportedFormat> {
    if ci_eq(e, "txt"@) || ci_eq(e, "text"@) {
        Some(SupportedFormat::Txt)
    } else if ci_eq(e, "xml"@) {
        Some(SupportedFormat::Xml)
    } else if ci_eq(e, "json"@) {
        Some(SupportedFormat::Json)
    } else if ci_eq(e, "csv"@) {
        Some(SupportedFormat::Csv)
    } else if ci_eq(e, "pdf"@) {
        Some(SupportedFormat::Pdf)
    } else if ci_eq(e, "doc"@) {
        Some(SupportedFormat::Doc)
    } else if ci_eq(e, "docx"@) {
        Some(SupportedFormat::Docx)
    } else if ci_eq(e, "rtf"@) {
        Some(SupportedFormat::Rtf)
    } else if ci_eq(e, "jpg"@) || ci_eq(e, "jpeg"@) {
        Some(SupportedFormat::Jpeg)
    } else if ci_eq(e, "png"@) {
        Some(SupportedFormat::Png)
    } else if ci_eq(e, "svg"@) {
        Some(SupportedFormat::Svg)
    } else {
        None
    }
}

/// The primary extension of each format.
pub open spec fn spec_primary_extension(f: SupportedFormat) -> Seq<char> {
    match f {
        SupportedFormat::Txt => "txt"@,
        SupportedFormat::Xml => "xml"@,
        SupportedFormat::Json => "json"@,
        SupportedFormat::Csv => "csv"@,
        SupportedFormat::Pdf => "pdf"@,
        SupportedFormat::Doc => "doc"@,
        SupportedFormat::Docx => "docx"@,
        SupportedFormat::Rtf => "rtf"@,
        SupportedFormat::Jpg => "jpg"@,
        SupportedFormat::Jpeg => "jpeg"@,
        SupportedFormat::Png => "png"@,
        SupportedFormat::Svg => "svg"@,
    }
}

/// All extensions of each format, primary first.
pub open spec fn spec_format_extensions(f: SupportedFormat) -> Seq<Seq<char>> {
    match f {
        SupportedFormat::Txt => seq!["txt"@, "text"@],
        SupportedFormat::Xml => seq!["xml"@],
        SupportedFormat::Json => seq!["json"@],
        SupportedFormat::Csv => seq!["csv"@],
        SupportedFormat::Pdf => seq!["pdf"@],
        SupportedFormat::Doc => seq!["doc"@],
        SupportedFormat::Docx => seq!["docx"@],
        SupportedFormat::Rtf => seq!["rtf"@],
        SupportedFormat::Jpg => seq!["jpg"@, "jpeg"@],
        SupportedFormat::Jpeg => seq!["jpeg"@, "jpg"@],
        SupportedFormat::Png => seq!["png"@],
        SupportedFormat::Svg => seq!["svg"@],
    }
}

/// The mime type of each format.
pub open spec fn spec_mime_type(f: SupportedFormat) -> Seq<char> {
    match f {
        SupportedFormat::Txt => "text/plain"@,
        SupportedFormat::Xml => "application/xml"@,
        SupportedFormat::Json => "application/json"@,
        SupportedFormat::Csv => "text/csv"@,
        SupportedFormat::Pdf => "application/pdf"@,
        SupportedFormat::Doc => "application/msword"@,
        SupportedFormat::Docx =>
            "application/vnd.openxmlformats-officedocument.wordprocessingml.document"@,
        SupportedFormat::Rtf => "application/rtf"@,
        SupportedFormat::Jpg => "image/jpeg"@,
        SupportedFormat::Jpeg => "image/jpeg"@,
        SupportedFormat::Png => "image/png"@,
        SupportedFormat::Svg => "image/svg+xml"@,
    }
}

/// The human-readable description of each format.
pub open spec fn spec_description(f: SupportedFormat) -> Seq<char> {
    match f {
        SupportedFormat::Txt => "Plain text file"@,
        SupportedFormat::Xml => "XML document"@,
        SupportedFormat::Json => "JSON data"@,
        SupportedFormat::Csv => "Comma-separated values"@,
        SupportedFormat::Pdf => "PDF document"@,
        SupportedFormat::Doc => "Microsoft Word document (legacy)"@,
        SupportedFormat::Docx => "Microsoft Word document"@,
        SupportedFormat::Rtf => "Rich Text Format"@,
        SupportedFormat::Jpg => "JPEG image"@,
        SupportedFormat::Jpeg => "JPEG image"@,
        SupportedFormat::Png => "PNG image"@,
        SupportedFormat::Svg => "SVG vector image"@,
    }
}

/// The data structure kind of each format.
pub open spec fn spec_data_structure_kind(f: SupportedFormat) -> DataStructureKind {
    match f {
        SupportedFormat::Xml | SupportedFormat::Json => DataStructureKind::HighlyStructured,
        SupportedFormat::Csv => DataStructureKind::SemiStructured,
        _ => DataStructureKind::Unstructured,
    }
}

impl SupportedFormat {
    /// The content kind category of this format.
    pub fn content_kind(self) -> (r: ContentKind)
        ensures
            r == spec_content_kind(self),
    {
        match self {
            SupportedFormat::Txt | SupportedFormat::Xml | SupportedFormat::Json
                | SupportedFormat::Csv => ContentKind::Text,
            SupportedFormat::Pdf | SupportedFormat::Doc | SupportedFormat::Docx
                | SupportedFormat::Rtf => ContentKind::Document,
            SupportedFormat::Jpg | SupportedFormat::Jpeg | SupportedFormat::Png
                | SupportedFormat::Svg => ContentKind::Image,
        }
    }

    /// The primary file extension of this format.
    pub fn primary_extension(self) -> (r: &'static str)
        ensures
            r@ == spec_primary_extension(self),
    {
        match self {
            SupportedFormat::Txt => "txt",
            SupportedFormat::Xml => "xml",
            SupportedFormat::Json => "json",
            SupportedFormat::Csv => "csv",
            SupportedFormat::Pdf => "pdf",
            SupportedFormat::Doc => "doc",
            SupportedFormat::Docx => "docx",
            SupportedFormat::Rtf => "rtf",
            SupportedFormat::Jpg => "jpg",
            SupportedFormat::Jpeg => "jpeg",
            SupportedFormat::Png => "png",
            SupportedFormat::Svg => "svg",
        }
    }

    /// All file extensions of this format, primary first.
    pub fn extensions(self) -> (r: Vec<&'static str>)
        ensures
            r@.len() == spec_format_extensions(self).len(),
            forall|i: int| 0 <= i < r@.len() ==> r@[i]@ == spec_format_extensions(self)[i],
    {
        let mut v: Vec<&'static str> = Vec::new();
        match self {
            SupportedFormat::Txt => {
                v.push("txt");
                v.push("text");
            },
            SupportedFormat::Xml => {
                v.push("xml");
            },
            SupportedFormat::Json => {
                v.push("json");
            },
            SupportedFormat::Csv => {
                v.push("csv");
            },
            SupportedFormat::Pdf => {
                v.push("pdf");
            },
            SupportedFormat::Doc => {
                v.push("doc");
            },
            SupportedFormat::Docx => {
                v.push("docx");
            },
            SupportedFormat::Rtf => {
                v.push("rtf");
            },
            SupportedFormat::Jpg => {
                v.push("jpg");
                v.push("jpeg");
            },
            SupportedFormat::Jpeg => {
                v.push("jpeg");
                v.push("jpg");
            },
            SupportedFormat::Png => {
                v.push("png");
            },
            SupportedFormat::Svg => {
                v.push("svg");
            },
        }
        v
    }

    /// Identifies a format from a file extension, without regard to ASCII
    /// case; returns nothing for unknown extensions.
    pub fn from_extension(extension: &str) -> (r: Option<SupportedFormat>)
        ensures
            r == spec_format_for_extension(extension@),
    {
        if ci_str_eq(extension, "txt") || ci_str_eq(extension, "text") {
            Some(SupportedFormat::Txt)
        } else if ci_str_eq(extension, "xml") {
            Some(SupportedFormat::Xml)
        } else if ci_str_eq(extension, "json") {
            Some(SupportedFormat::Json)
        } else if ci_str_eq(extension, "csv") {
            Some(SupportedFormat::Csv)
        } else if ci_str_eq(extension, "pdf") {
            Some(SupportedFormat::Pdf)
        } else if ci_str_eq(extension, "doc") {
            Some(SupportedFormat::Doc)
        } else if ci_str_eq(extension, "docx") {
            Some(SupportedFormat::Docx)
        } else if ci_str_eq(extension, "rtf") {
            Some(SupportedFormat::Rtf)
        } else if ci_str_eq(extension, "jpg") || ci_str_eq(extension, "jpeg") {
            Some(SupportedFormat::Jpeg)
        } else if ci_str_eq(extension, "png") {
            Some(SupportedFormat::Png)
        } else if ci_str_eq(extension, "svg") {
            Some(SupportedFormat::Svg)
        } else {
            None
        }
    }

    /// True when this format is text-based.
    pub fn is_text(self) -> (r: bool)
        ensures
            r <==> spec_content_kind(self) == ContentKind::Text,
    {
        matches!(self.content_kind(), ContentKind::Text)
    }

    /// True when this format is a document format.
    pub fn is_document(self) -> (r: bool)
        ensures
            r <==> spec_content_kind(self) == ContentKind::Document,
    {
        matches!(self.content_kind(), ContentKind::Document)
    }

    /// True when this format is an image format.
    pub fn is_image(self) -> (r: bool)
        ensures
            r <==> spec_content_kind(self) == ContentKind::Image,
    {
        matches!(self.content_kind(), ContentKind::Image)
    }

    /// A human-readable description of the format.
    pub fn description(self) -> (r: &'static str)
        ensures
            r@ == spec_description(self),
    {
        match self {
            SupportedFormat::Txt => "Plain text file",
            SupportedFormat::Xml => "XML document",
            SupportedFormat::Json => "JSON data",
            SupportedFormat::Csv => "Comma-separated values",
            SupportedFormat::Pdf => "PDF document",
            SupportedFormat::Doc => "Microsoft Word document (legacy)",
            SupportedFormat::Docx => "Microsoft Word document",
            SupportedFormat::Rtf => "Rich Text Format",
            SupportedFormat::Jpg => "JPEG image",
            SupportedFormat::Jpeg => "JPEG image",
            SupportedFormat::Png => "PNG image",
            SupportedFormat::Svg => "SVG vector image",
        }
    }

    /// The MIME type of this format.
    pub fn mime_type(self) -> (r: &'static str)
        ensures
            r@ == spec_mime_type(self),
    {
        match self {
            SupportedFormat::Txt => "text/plain",
            SupportedFormat::Xml => "application/xml",
            SupportedFormat::Json => "application/json",
            SupportedFormat::Csv => "text/csv",
            SupportedFormat::Pdf => "application/pdf",
            SupportedFormat::Doc => "application/msword",
            SupportedFormat::Docx =>
                "application/vnd.openxmlformats-officedocument.wordprocessingml.document",
            SupportedFormat::Rtf => "application/rtf",
            SupportedFormat::Jpg => "image/jpeg",
            SupportedFormat::Jpeg => "image/jpeg",
            SupportedFormat::Png => "image/png",
            SupportedFormat::Svg => "image/svg+xml",
        }
    }

    /// The data structure kind of this format.
    pub fn data_structure_kind(self) -> (r: DataStructureKind)
        ensures
            r == spec_data_structure_kind(self),
    {
        match self {
            SupportedFormat::Xml | SupportedFormat::Json => DataStructureKind::HighlyStructured,
            SupportedFormat::Csv => DataStructureKind::SemiStructured,
            _ => DataStructureKind::Unstructured,
        }
    }
}

} // verus!
