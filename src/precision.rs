//! The time unit in which timestamps are written.
use vstd::prelude::*;

verus! {

/// The unit of the integer timestamps in a write: nanoseconds, microseconds,
/// milliseconds or seconds since the Unix epoch.
#[derive(Copy, Clone, Debug, PartialEq, Eq, Structural)]
pub enum WritePrecision {
    NS,
    US,
    MS,
    S,
}

/// The short code by which the store names a precision in a query.
pub open spec fn precision_code(p: WritePrecision) -> Seq<char> {
    match p {
        WritePrecision::NS => seq!['n', 's'],
        WritePrecision::US => seq!['u', 's'],
        WritePrecision::MS => seq!['m', 's'],
        WritePrecision::S => seq!['s'],
    }
}

impl WritePrecision {
    /// The precision's short code: `ns`, `us`, `ms` or `s`.
    pub fn to_string(&self) -> (r: String)
        ensures
            r@ == precision_code(*self),
    {
        match self {
            WritePrecision::NS => {
                proof {
                    reveal_strlit("ns");
                }
                String::from_str("ns")
            },
            WritePrecision::US => {
                proof {
                    reveal_strlit("us");
                }
                String::from_str("us")
            },
            WritePrecision::MS => {
                proof {
                    reveal_strlit("ms");
                }
                String::from_str("ms")
            },
            WritePrecision::S => {
                proof {
                    reveal_strlit("s");
                }
                String::from_str("s")
            },
        }
    }
}

impl Default for WritePrecision {
    /// Nanoseconds, the store's own default.
    fn default() -> (r: WritePrecision)
        ensures
            r == WritePrecision::NS,
    {
        WritePrecision::NS
    }
}

} // verus!
