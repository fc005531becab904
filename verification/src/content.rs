//! Content values: text, binary data with a MIME type, or nothing.

use vstd::prelude::*;

use vstd::string::StringSliceAdditionalSpecFns;
use vstd::utf8::encode_utf8;

verus! {

/// Content types supported by the system: a simplified representation for
/// processing.
#[derive(Debug, Clone, PartialEq)]
pub enum Content {
    /// Text content stored as a UTF-8 string.
    Text(String),
    /// Generic binary content with a MIME type.
    Binary {
        /// Raw binary data.
        data: Vec<u8>,
        /// MIME type describing the content.
        mime_type: String,
    },
    /// Empty or null content.
    Empty,
}

/// The size of a content value in bytes: the encoded length of text, the
/// data length of binary content, zero for empty content.
pub open spec fn spec_estimated_size(c: Content) -> nat {
    match c {
        Content::Text(t) => encode_utf8(t@).len(),
        Content::Binary { data, .. } => data@.len(),
        Content::Empty => 0,
    }
}

impl Content {
    /// The type name of this content.
    pub fn kind_name(&self) -> (r: &'static str)
        ensures
            r@ == match *self {
                Content::Text(_) => "text"@,
                Content::Binary { .. } => "binary"@,
                Content::Empty => "empty"@,
            },
    {
        match self {
            Content::Text(_) => "text",
            Content::Binary { .. } => "binary",
            Content::Empty => "empty",
        }
    }

    /// True when this content is textual.
    pub fn is_textual(&self) -> (r: bool)
        ensures
            r == (*self is Text),
    {
        matches!(self, Content::Text(_))
    }

    /// True when this content is multimedia; the simplified representation
    /// has no multimedia variant.
    pub fn is_multimedia(&self) -> (r: bool)
        ensures
            r == false,
    {
        false
    }

    /// True when this content carries binary data.
    pub fn has_binary_data(&self) -> (r: bool)
        ensures
            r == (*self is Binary),
    {
        !matches!(self, Content::Text(_) | Content::Empty)
    }

    /// The estimated size of the content in bytes.
    pub fn estimated_size(&self) -> (r: usize)
        ensures
            r == spec_estimated_size(*self) as usize,
    {
        match self {
            Content::Text(text) => {
                let s: &str = text.as_str();
                let n: usize = s.len();
                proof {
                    assert(s.spec_bytes() == encode_utf8(text@));
                }
                n
            },
            Content::Binary { data, .. } => data.len(),
            Content::Empty => 0,
        }
    }

    /// The MIME type of this content: a fixed one for text, the stored one
    /// for binary data, nothing for empty content.
    pub fn format(&self) -> (r: Option<&str>)
        ensures
            match r {
                Some(f) => match *self {
                    Content::Text(_) => f@ == "text/plain"@,
                    Content::Binary { mime_type, .. } => f@ == mime_type@,
                    Content::Empty => false,
                },
                None => *self is Empty,
            },
    {
        match self {
            Content::Text(_) => Some("text/plain"),
            Content::Binary { mime_type, .. } => Some(mime_type.as_str()),
            Content::Empty => None,
        }
    }

    /// The raw bytes of binary content, when this is binary content.
    pub fn as_bytes(&self) -> (r: Option<&Vec<u8>>)
        ensures
            match r {
                Some(d) => *self matches Content::Binary { data, .. } && d == &data,
                None => !(*self is Binary),
            },
    {
        match self {
            Content::Binary { data, .. } => Some(data),
            Content::Text(_) | Content::Empty => None,
        }
    }

    /// The text of textual content, when this is textual content.
    pub fn as_text(&self) -> (r: Option<&str>)
        ensures
            match r {
                Some(t) => *self matches Content::Text(s) && t@ == s@,
                None => !(*self is Text),
            },
    {
        match self {
            Content::Text(text) => Some(text.as_str()),
            _ => None,
        }
    }

    /// Creates text content.
    pub fn text(content: String) -> (r: Content)
        ensures
            r matches Content::Text(t) && t@ == content@,
    {
        Content::Text(content)
    }

    /// Creates binary content.
    pub fn binary(data: Vec<u8>, mime_type: String) -> (r: Content)
        ensures
            r matches Content::Binary { data: d, mime_type: m } && d@ == data@ && m@
                == mime_type@,
    {
        Content::Binary { data, mime_type }
    }
}

} // verus!
