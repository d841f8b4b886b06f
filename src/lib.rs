//! Writes time-series points to a remote store as Line Protocol text over HTTP.
//!
//! The library covers the data model of a point, the builder that guarantees every
//! point has a field, the precision-aware encoding into wire text, the assembly of a
//! write request, and the classification of the store's answer.
use vstd::prelude::*;

pub use http;

pub mod asynchronous;
pub mod auth;
pub mod blocking;
pub mod builder;
pub mod decimal;
pub mod entries;
pub mod error;
pub mod outside;
pub mod point;
pub mod precision;
pub mod request;
pub mod timestamp;
pub mod value;
pub mod writer;

pub use auth::Authorization;
pub use builder::DataPointBuilder;
pub use error::{ConversionError, WriteError};
pub use point::DataPoint;
pub use precision::WritePrecision;
pub use request::API_ENDPOINT_V2;
pub use timestamp::Timestamp;
pub use value::Value;
pub use writer::InfluxWriter;
