//! Writing while blocking the calling thread.
pub use crate::writer::BlockingClient;
