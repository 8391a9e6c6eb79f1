//! Why a string failed the printable US-ASCII check.
use vstd::prelude::*;

verus! {

/// The first reason found for a string not being printable US-ASCII.
#[derive(Debug, Clone, Copy, PartialEq, Eq, Structural)]
pub enum AsciiError {
    /// An ASCII control character, at this byte position (counted from 1).
    ControlChar(usize),
    /// A character outside US-ASCII.
    NonAscii(char),
}

impl AsciiError {
    /// A short text that names the kind of failure.
    pub fn description(&self) -> (r: &'static str)
        ensures
            r@ == (match self {
                AsciiError::ControlChar(_) => "contain ASCII control character"@,
                AsciiError::NonAscii(_) => "contain non US-ASCII character"@,
            }),
    {
        match self {
            AsciiError::ControlChar(_) => "contain ASCII control character",
            AsciiError::NonAscii(_) => "contain non US-ASCII character",
        }
    }
}

} // verus!
