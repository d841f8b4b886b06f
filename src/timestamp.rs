//! Absolute instants and their precision-scaled encoding.
use vstd::prelude::*;
use crate::decimal::{dec_int, i64_text};
use crate::error::{ConversionError, is_time_error};
use crate::precision::WritePrecision;

verus! {

/// The largest number of whole seconds, either side of the epoch, that an
/// instant may lie from it: some 285,000 years, past the range of common
/// calendar libraries, and small enough that every precision but nanoseconds
/// counts it in a signed 64-bit integer.
pub const MAX_EPOCH_SECONDS: i64 = 9_000_000_000_000;

/// The number of nanoseconds in a second.
pub const NANOS_PER_SECOND: u32 = 1_000_000_000;

/// An instant in UTC, as whole seconds since the Unix epoch and the
/// nanoseconds past that second, below two seconds (a count of one second or
/// more is how calendar libraries mark a leap second).
#[derive(Copy, Clone, Debug, PartialEq, Eq, Structural)]
pub struct Timestamp {
    secs: i64,
    nanos: u32,
}

/// The instant `secs` seconds and `nanos` nanoseconds after the epoch, counted
/// in whole units of the precision: the seconds scaled, plus the whole units
/// among the nanoseconds (seconds alone at second precision).
pub open spec fn epoch_units(secs: int, nanos: int, p: WritePrecision) -> int {
    match p {
        WritePrecision::NS => secs * 1_000_000_000 + nanos,
        WritePrecision::US => secs * 1_000_000 + nanos / 1_000,
        WritePrecision::MS => secs * 1_000 + nanos / 1_000_000,
        WritePrecision::S => secs,
    }
}

/// Whether a value fits in a signed 64-bit integer.
pub open spec fn fits_i64(v: int) -> bool {
    i64::MIN <= v <= i64::MAX
}

impl Timestamp {
    #[verifier::type_invariant]
    spec fn well_formed(&self) -> bool {
        &&& -MAX_EPOCH_SECONDS <= self.secs <= MAX_EPOCH_SECONDS
        &&& self.nanos < 2 * NANOS_PER_SECOND
    }

    /// Whole seconds since the epoch.
    pub closed spec fn spec_seconds(&self) -> int {
        self.secs as int
    }

    /// Nanoseconds past the whole second.
    pub closed spec fn spec_nanos(&self) -> int {
        self.nanos as int
    }

    /// The instant given as seconds since the epoch and nanoseconds past that
    /// second; `None` where the seconds lie beyond `MAX_EPOCH_SECONDS` either
    /// way or the nanoseconds reach two seconds.
    pub fn new(secs: i64, nanos: u32) -> (r: Option<Timestamp>)
        ensures
            r.is_some() <==> (-MAX_EPOCH_SECONDS <= secs <= MAX_EPOCH_SECONDS && nanos < 2
                * NANOS_PER_SECOND),
            r.is_some() ==> r.unwrap().spec_seconds() == secs && r.unwrap().spec_nanos() == nanos,
    {
        if -MAX_EPOCH_SECONDS <= secs && secs <= MAX_EPOCH_SECONDS && nanos < 2 * NANOS_PER_SECOND {
            Some(Timestamp { secs, nanos })
        } else {
            None
        }
    }

    /// Whole seconds since the epoch.
    pub fn seconds(&self) -> (r: i64)
        ensures
            r == self.spec_seconds(),
    {
        self.secs
    }

    /// Nanoseconds past the whole second.
    pub fn subsec_nanos(&self) -> (r: u32)
        ensures
            r == self.spec_nanos(),
    {
        self.nanos
    }

    /// The decimal text of the instant in whole units of the precision since
    /// the epoch. Only nanoseconds can fail: where the count does not fit in a
    /// signed 64-bit integer the result is a `TimeConversionError`.
    pub fn to_line_protocol(&self, precision: WritePrecision) -> (r: Result<String, ConversionError>)
        ensures
            ({
                let v = epoch_units(self.spec_seconds(), self.spec_nanos(), precision);
                &&& r.is_ok() <==> fits_i64(v)
                &&& r.is_ok() ==> r.unwrap()@ == dec_int(v)
                &&& r.is_err() ==> is_time_error(r->Err_0)
            }),
            precision != WritePrecision::NS ==> r.is_ok(),
    {
        proof {
            use_type_invariant(self);
        }
        let secs = self.secs;
        let nanos = self.nanos;
        match precision {
            WritePrecision::NS => {
                let v: i128 = (secs as i128) * 1_000_000_000i128 + (nanos as i128);
                assert(epoch_units(secs as int, nanos as int, precision) == v);
                if i64::MIN as i128 <= v && v <= i64::MAX as i128 {
                    Ok(i64_text(v as i64))
                } else {
                    Err(
                        ConversionError::TimeConversionError(
                            String::from_str(
                                "Can not convert ridiculously large date with nanosecond precision",
                            ),
                        ),
                    )
                }
            },
            WritePrecision::US => {
                assert(-9_000_000_000_000_000_000 <= secs * 1_000_000 <= 9_000_000_000_000_000_000)
                    by (nonlinear_arith)
                    requires
                        -MAX_EPOCH_SECONDS <= secs <= MAX_EPOCH_SECONDS,
                ;
                assert(epoch_units(secs as int, nanos as int, precision) == secs * 1_000_000 + nanos
                    / 1_000);
                Ok(i64_text(secs * 1_000_000 + (nanos / 1_000) as i64))
            },
            WritePrecision::MS => {
                assert(-9_000_000_000_000_000 <= secs * 1_000 <= 9_000_000_000_000_000)
                    by (nonlinear_arith)
                    requires
                        -MAX_EPOCH_SECONDS <= secs <= MAX_EPOCH_SECONDS,
                ;
                assert(epoch_units(secs as int, nanos as int, precision) == secs * 1_000 + nanos
                    / 1_000_000);
                Ok(i64_text(secs * 1_000 + (nanos / 1_000_000) as i64))
            },
            WritePrecision::S => {
                assert(epoch_units(secs as int, nanos as int, precision) == secs);
                Ok(i64_text(secs))
            },
        }
    }
}

} // verus!

verus! {

/// The epoch itself is written `0` at every precision.
pub proof fn lemma_epoch_is_zero(p: WritePrecision)
    ensures
        fits_i64(epoch_units(0, 0, p)),
        dec_int(epoch_units(0, 0, p)) == seq!['0'],
{
    assert(epoch_units(0, 0, p) == 0);
    assert(dec_int(0) =~= seq!['0']);
}

} // verus!
