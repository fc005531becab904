//! Data sensitivity level classification for risk assessment and handling
//! requirements.

use vstd::prelude::*;

verus! {

/// Data sensitivity levels, ordered from lowest to highest:
/// `NoSensitivity < Low < Medium < High`.
#[derive(Debug, Clone, Copy, PartialEq, Eq, Hash, PartialOrd, Ord, Structural)]
pub enum DataSensitivity {
    /// No sensitivity: public or non-sensitive data.
    NoSensitivity,
    /// Low sensitivity: internal or limited distribution.
    Low,
    /// Medium sensitivity: requires basic protection.
    Medium,
    /// High sensitivity: requires maximum protection.
    High,
}

/// The numeric level of each sensitivity, 0 through 3 in ascending order.
pub open spec fn spec_level(s: DataSensitivity) -> u8 {
    match s {
        DataSensitivity::NoSensitivity => 0u8,
        DataSensitivity::Low => 1u8,
        DataSensitivity::Medium => 2u8,
        DataSensitivity::High => 3u8,
    }
}

impl DataSensitivity {
    /// The numeric value of this sensitivity level (0 through 3).
    pub fn level(&self) -> (r: u8)
        ensures
            r == spec_level(*self),
    {
        match self {
            DataSensitivity::NoSensitivity => 0,
            DataSensitivity::Low => 1,
            DataSensitivity::Medium => 2,
            DataSensitivity::High => 3,
        }
    }

    /// True when this sensitivity level requires special handling.
    pub fn requires_special_handling(&self) -> (r: bool)
        ensures
            r <==> spec_level(*self) >= 3,
    {
        matches!(self, DataSensitivity::High)
    }

    /// True when this sensitivity level requires encryption.
    pub fn requires_encryption(&self) -> (r: bool)
        ensures
            r <==> spec_level(*self) >= 2,
    {
        matches!(self, DataSensitivity::Medium | DataSensitivity::High)
    }

    /// True when this sensitivity level requires access logging.
    pub fn requires_access_logging(&self) -> (r: bool)
        ensures
            r <==> spec_level(*self) >= 3,
    {
        matches!(self, DataSensitivity::High)
    }

    /// True when this sensitivity level requires data retention policies.
    pub fn requires_retention_policy(&self) -> (r: bool)
        ensures
            r <==> spec_level(*self) >= 2,
    {
        matches!(self, DataSensitivity::Medium | DataSensitivity::High)
    }

    /// True when this sensitivity level requires regulatory compliance
    /// oversight.
    pub fn requires_compliance_oversight(&self) -> (r: bool)
        ensures
            r <==> spec_level(*self) >= 3,
    {
        matches!(self, DataSensitivity::High)
    }

    /// The recommended maximum retention period in days; nothing means
    /// indefinite retention.
    pub fn max_retention_days(&self) -> (r: Option<u32>)
        ensures
            r == match *self {
                DataSensitivity::NoSensitivity => None::<u32>,
                DataSensitivity::Low => Some(2555u32),
                DataSensitivity::Medium => Some(1095u32),
                DataSensitivity::High => Some(90u32),
            },
    {
        match self {
            DataSensitivity::NoSensitivity => None,
            DataSensitivity::Low => Some(2555),
            DataSensitivity::Medium => Some(1095),
            DataSensitivity::High => Some(90),
        }
    }

    /// All sensitivity levels in ascending order.
    pub fn all() -> (r: Vec<DataSensitivity>)
        ensures
            r@ == seq![
                DataSensitivity::NoSensitivity,
                DataSensitivity::Low,
                DataSensitivity::Medium,
                DataSensitivity::High,
            ],
    {
        let mut v: Vec<DataSensitivity> = Vec::new();
        v.push(DataSensitivity::NoSensitivity);
        v.push(DataSensitivity::Low);
        v.push(DataSensitivity::Medium);
        v.push(DataSensitivity::High);
        proof {
            assert(v@ =~= seq![
                DataSensitivity::NoSensitivity,
                DataSensitivity::Low,
                DataSensitivity::Medium,
                DataSensitivity::High,
            ]);
        }
        v
    }

    /// The display name of the level. The lowest level reads `None`: it
    /// marks data with no sensitivity.
    pub fn as_str(&self) -> (r: &'static str)
        ensures
            r@ == match *self {
                DataSensitivity::NoSensitivity => "None"@,
                DataSensitivity::Low => "Low"@,
                DataSensitivity::Medium => "Medium"@,
                DataSensitivity::High => "High"@,
            },
    {
        match self {
            DataSensitivity::NoSensitivity => "None",
            DataSensitivity::Low => "Low",
            DataSensitivity::Medium => "Medium",
            DataSensitivity::High => "High",
        }
    }

    /// The sensitivity with the given numeric level, for levels 0 through
    /// 3; nothing for any other value.
    pub fn from_level(level: u8) -> (r: Option<DataSensitivity>)
        ensures
            match r {
                Some(s) => level <= 3 && spec_level(s) == level,
                None => level > 3,
            },
    {
        match level {
            0 => Some(DataSensitivity::NoSensitivity),
            1 => Some(DataSensitivity::Low),
            2 => Some(DataSensitivity::Medium),
            3 => Some(DataSensitivity::High),
            _ => None,
        }
    }
}

} // verus!
