//! GNSS fix-status types: the status token and byte classifiers.

use vstd::prelude::*;

use crate::text::str_eq;
use crate::text::trim;
use crate::text::trim_of;

verus! {

/// GNSS (Global Navigation Satellite System) fix status.
#[derive(PartialEq, Eq, Structural, Debug, Clone, Copy)]
pub enum FixStatus {
    /// GNSS fix status is unknown.
    Unknown,
    /// No GNSS fix.
    NotFix,
    /// 2D GNSS fix (latitude and longitude only).
    Fix2D,
    /// 3D GNSS fix (latitude, longitude, and altitude).
    Fix3D,
}

/// The error of parsing a fix status from text.
#[derive(PartialEq, Eq, Debug, Clone)]
pub enum FixStatusParseError {
    /// The text matches no known fix-status token; carries the offending text.
    UnknownToken(String),
}

/// The fix status that an already-trimmed report token denotes, if any.
/// Each status is accepted both with and without its `Location` prefix.
pub open spec fn spec_fix_token(token: Seq<char>) -> Option<FixStatus> {
    if token == "Location Unknown"@ || token == "Unknown"@ {
        Some(FixStatus::Unknown)
    } else if token == "Location Not Fix"@ || token == "Not Fix"@ {
        Some(FixStatus::NotFix)
    } else if token == "Location 2D Fix"@ || token == "2D Fix"@ {
        Some(FixStatus::Fix2D)
    } else if token == "Location 3D Fix"@ || token == "3D Fix"@ {
        Some(FixStatus::Fix3D)
    } else {
        None
    }
}

/// The fix status reported as a raw mode byte: `0` no fix, `1` a 2D fix,
/// `2` a 3D fix, anything else unknown.
pub open spec fn spec_fix_of_byte(value: u8) -> FixStatus {
    if value == 0 {
        FixStatus::NotFix
    } else if value == 1 {
        FixStatus::Fix2D
    } else if value == 2 {
        FixStatus::Fix3D
    } else {
        FixStatus::Unknown
    }
}

impl FixStatus {
    /// Match an already-trimmed token against the fix-status table. Exact and
    /// case-sensitive; an unrecognized token fails with an error carrying the
    /// offending text.
    pub fn from_token(token: &str) -> (r: Result<FixStatus, FixStatusParseError>)
        ensures
            match spec_fix_token(token@) {
                Some(status) => r == Ok::<FixStatus, FixStatusParseError>(status),
                None => r matches Err(FixStatusParseError::UnknownToken(text)) && text@ == token@,
            },
    {
        if str_eq(token, "Location Unknown") || str_eq(token, "Unknown") {
            Ok(FixStatus::Unknown)
        } else if str_eq(token, "Location Not Fix") || str_eq(token, "Not Fix") {
            Ok(FixStatus::NotFix)
        } else if str_eq(token, "Location 2D Fix") || str_eq(token, "2D Fix") {
            Ok(FixStatus::Fix2D)
        } else if str_eq(token, "Location 3D Fix") || str_eq(token, "3D Fix") {
            Ok(FixStatus::Fix3D)
        } else {
            Err(FixStatusParseError::UnknownToken(token.to_owned()))
        }
    }

    /// Parse a fix status from report text, ignoring surrounding whitespace.
    /// The error carries the text as given, untrimmed.
    pub fn parse(value: &str) -> (r: Result<FixStatus, FixStatusParseError>)
        ensures
            match spec_fix_token(trim_of(value@)) {
                Some(status) => r == Ok::<FixStatus, FixStatusParseError>(status),
                None => r matches Err(FixStatusParseError::UnknownToken(text)) && text@ == value@,
            },
    {
        let trimmed = trim(value);
        match Self::from_token(trimmed) {
            Ok(status) => Ok(status),
            Err(_) => Err(FixStatusParseError::UnknownToken(value.to_owned())),
        }
    }

    /// Classify a raw fix-mode byte. Total: unlisted bytes yield `Unknown`.
    #[must_use]
    pub fn from_byte(value: u8) -> (r: FixStatus)
        ensures
            r == spec_fix_of_byte(value),
    {
        match value {
            0 => FixStatus::NotFix,
            1 => FixStatus::Fix2D,
            2 => FixStatus::Fix3D,
            _ => FixStatus::Unknown,
        }
    }
}

impl From<u8> for FixStatus {
    fn from(value: u8) -> (r: Self) {
        Self::from_byte(value)
    }
}

impl vstd::std_specs::convert::FromSpecImpl<u8> for FixStatus {
    open spec fn obeys_from_spec() -> bool {
        true
    }

    open spec fn from_spec(value: u8) -> Self {
        spec_fix_of_byte(value)
    }
}

} // verus!
