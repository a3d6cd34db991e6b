use vstd::prelude::*;

verus! {

/// Wire format of a result column: text or binary.
///
/// The native client library describes a column's format as an integer
/// code: zero for textual data, one for binary data. Codes other than
/// those two are reserved; the binding treats any nonzero code as binary.
#[derive(Clone, Copy, Debug, PartialEq, Eq, Structural)]
pub enum Format {
    /// The column's values are textual.
    Text,
    /// The column's values are binary.
    Binary,
}

impl Format {
    /// The integer code the native library uses for this format.
    pub open spec fn spec_code(self) -> i32 {
        match self {
            Format::Text => 0,
            Format::Binary => 1,
        }
    }

    /// The format a native code stands for: zero is text, all else binary.
    pub open spec fn spec_from_code(code: i32) -> Format {
        if code == 0 {
            Format::Text
        } else {
            Format::Binary
        }
    }

    /// Returns the native integer code for this format.
    pub fn code(self) -> (r: i32)
        ensures
            r == self.spec_code(),
    {
        match self {
            Format::Text => 0,
            Format::Binary => 1,
        }
    }

    /// Classifies a native format code.
    pub fn from_code(code: i32) -> (r: Format)
        ensures
            r == Format::spec_from_code(code),
    {
        if code == 0 {
            Format::Text
        } else {
            Format::Binary
        }
    }
}

/// A format survives the round trip through its native code.
pub proof fn lemma_format_code_round_trip(f: Format)
    ensures
        Format::spec_from_code(f.spec_code()) == f,
{
}

} // verus!
