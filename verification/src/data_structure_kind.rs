//! Classification of data by its structural organization, from rigidly
//! schematized formats to unstructured content.

use vstd::prelude::*;

use crate::data_sensitivity::DataSensitivity;

verus! {

/// Classification of data based on its structural organization.
#[derive(Debug, Clone, Copy, PartialEq, Eq, Hash, Structural)]
pub enum DataStructureKind {
    /// Data with rigid schema, defined relationships, and strict formatting
    /// rules.
    HighlyStructured,
    /// Data with some organizational structure but flexible schema.
    SemiStructured,
    /// Data without predefined format, schema, or organizational structure.
    Unstructured,
}

impl DataStructureKind {
    /// The base sensitivity level of this structure type; actual
    /// sensitivity depends on the content, so every structure starts low.
    pub fn base_sensitivity_level(&self) -> (r: DataSensitivity)
        ensures
            r == DataSensitivity::Low,
    {
        DataSensitivity::Low
    }

    /// True when this structure type has a defined schema.
    pub fn has_schema(&self) -> (r: bool)
        ensures
            r <==> *self == DataStructureKind::HighlyStructured,
    {
        matches!(self, DataStructureKind::HighlyStructured)
    }

    /// True when this structure type is easily queryable.
    pub fn is_queryable(&self) -> (r: bool)
        ensures
            r <==> *self != DataStructureKind::Unstructured,
    {
        !matches!(self, DataStructureKind::Unstructured)
    }

    /// True when parsing is predictable for this structure type.
    pub fn has_predictable_parsing(&self) -> (r: bool)
        ensures
            r <==> *self == DataStructureKind::HighlyStructured,
    {
        matches!(self, DataStructureKind::HighlyStructured)
    }

    /// True when this structure type supports relationship queries.
    pub fn supports_relationships(&self) -> (r: bool)
        ensures
            r <==> *self == DataStructureKind::HighlyStructured,
    {
        matches!(self, DataStructureKind::HighlyStructured)
    }
}

} // verus!
