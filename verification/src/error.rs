//! The error reported for malformed input.

use vstd::prelude::*;

verus! {

/// The expectation that a rejected input violated.
#[derive(Debug, Clone, Copy, PartialEq, Eq, Structural)]
pub enum Violation {
    /// A payload with no bytes at all.
    EmptyPayload,
    /// A category tag outside the range 0 to 6.
    CategoryBits(u8),
    /// A payload whose length the category's layout does not allow.
    PayloadLength(usize),
    /// A payload that ends before the data that its marker announces.
    Truncated,
    /// A marker byte that the category's layout does not define.
    Marker(u8),
    /// A provider pattern id that the pattern table does not hold.
    ProviderPattern(u8),
}

/// The library's error type. Every failure is of the one kind "invalid
/// input", and names the violated expectation.
#[derive(Debug, Clone, Copy, PartialEq, Eq, Structural)]
pub enum FourWordError {
    InvalidInput(Violation),
}

impl FourWordError {
    /// The violated expectation.
    pub fn violation(&self) -> (v: Violation)
        ensures
            v == self.violation_of(),
            *self == FourWordError::InvalidInput(v),
    {
        match self {
            FourWordError::InvalidInput(v) => *v,
        }
    }

    /// The text that `message` returns for each violation.
    pub open spec fn message_text(v: Violation) -> Seq<char> {
        match v {
            Violation::EmptyPayload => "invalid input: empty compressed data"@,
            Violation::CategoryBits(_) => "invalid input: category bits outside 0..=6"@,
            Violation::PayloadLength(_) => "invalid input: payload length does not fit the category"@,
            Violation::Truncated => "invalid input: payload ends before its data is complete"@,
            Violation::Marker(_) => "invalid input: unrecognized marker byte"@,
            Violation::ProviderPattern(_) => "invalid input: unrecognized provider pattern id"@,
        }
    }

    /// A human-readable description of the violated expectation.
    pub fn message(&self) -> (s: &'static str)
        ensures
            s@ == Self::message_text(self.violation_of()),
    {
        match self {
            FourWordError::InvalidInput(Violation::EmptyPayload) => "invalid input: empty compressed data",
            FourWordError::InvalidInput(Violation::CategoryBits(_)) => "invalid input: category bits outside 0..=6",
            FourWordError::InvalidInput(Violation::PayloadLength(_)) => "invalid input: payload length does not fit the category",
            FourWordError::InvalidInput(Violation::Truncated) => "invalid input: payload ends before its data is complete",
            FourWordError::InvalidInput(Violation::Marker(_)) => "invalid input: unrecognized marker byte",
            FourWordError::InvalidInput(Violation::ProviderPattern(_)) => "invalid input: unrecognized provider pattern id",
        }
    }

    /// The violation as a specification-level value.
    pub open spec fn violation_of(&self) -> Violation {
        match *self {
            FourWordError::InvalidInput(v) => v,
        }
    }
}

} // verus!
