//! What can go wrong when points are encoded or written.
use vstd::prelude::*;

verus! {

/// A point could not be turned into Line Protocol text.
#[derive(Clone, Debug, PartialEq, Eq)]
pub enum ConversionError {
    /// The timestamp cannot be written at the requested precision.
    TimeConversionError(String),
    /// A point was finalised without any field.
    MissingField,
}

/// The message of a `TimeConversionError`.
pub open spec fn time_error_text() -> Seq<char> {
    "Can not convert ridiculously large date with nanosecond precision"@
}

/// The one error that encoding can give: a `TimeConversionError` with its
/// message. Every failing point and batch gives this same error.
pub open spec fn is_time_error(e: ConversionError) -> bool {
    e matches ConversionError::TimeConversionError(m) && m@ == time_error_text()
}

/// Why a write did not succeed.
#[derive(Debug)]
pub enum WriteError {
    /// A point of the batch could not be encoded.
    Conversion(ConversionError),
    /// The request target could not be formed from the base URL.
    Url(url::ParseError),
    /// The transport failed before the store answered.
    Transport(anyhow::Error),
    /// The store answered with a status outside the 2xx range.
    WriteFailed { status: u16, body: String },
}

} // verus!
