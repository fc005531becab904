//! Data references: content together with a source identifier and an
//! optional mapping of its position within the source.

use vstd::prelude::*;

use crate::content::Content;

verus! {

/// A reference to data content with source tracking: the source's
/// identifier, an optional location of the data within the source, and the
/// content itself.
#[derive(Debug, Clone)]
pub struct DataReference {
    /// Unique identifier of the source containing this data.
    pub source_id: u128,
    /// Optional identifier of the data's position within the source, such
    /// as a line number or an element id.
    pub mapping_id: Option<String>,
    /// The actual content data.
    pub content_type: Content,
}

impl DataReference {
    /// Creates a new data reference with a freshly generated source id.
    pub fn new(content: Content) -> (r: DataReference)
        ensures
            r.mapping_id is None,
            r.content_type == content,
    {
        DataReference {
            source_id: crate::content_metadata::fresh_source_id(),
            mapping_id: None,
            content_type: content,
        }
    }

    /// Creates a new data reference with a specific source id.
    pub fn with_source_id(source_id: u128, content: Content) -> (r: DataReference)
        ensures
            r.source_id == source_id,
            r.mapping_id is None,
            r.content_type == content,
    {
        DataReference { source_id, mapping_id: None, content_type: content }
    }

    /// Sets the mapping id of this data reference.
    pub fn with_mapping_id(self, mapping_id: String) -> (r: DataReference)
        ensures
            r.source_id == self.source_id,
            r.mapping_id matches Some(m) && m@ == mapping_id@,
            r.content_type == self.content_type,
    {
        DataReference { mapping_id: Some(mapping_id), ..self }
    }

    /// The source id.
    pub fn source_id(&self) -> (r: u128)
        ensures
            r == self.source_id,
    {
        self.source_id
    }

    /// The mapping id, when one is set.
    pub fn mapping_id(&self) -> (r: Option<&str>)
        ensures
            match r {
                Some(m) => self.mapping_id matches Some(m0) && m@ == m0@,
                None => self.mapping_id is None,
            },
    {
        match &self.mapping_id {
            Some(m) => Some(m.as_str()),
            None => None,
        }
    }

    /// The content.
    pub fn content(&self) -> (r: &Content)
        ensures
            r == &self.content_type,
    {
        &self.content_type
    }

    /// The content's type name.
    pub fn content_kind_name(&self) -> (r: &'static str)
        ensures
            r@ == match self.content_type {
                Content::Text(_) => "text"@,
                Content::Binary { .. } => "binary"@,
                Content::Empty => "empty"@,
            },
    {
        self.content_type.kind_name()
    }

    /// The estimated size of the content in bytes.
    pub fn estimated_size(&self) -> (r: usize)
        ensures
            r == crate::content::spec_estimated_size(self.content_type) as usize,
    {
        self.content_type.estimated_size()
    }
}

} // verus!
