//! Error vocabulary for a ZIP archive library.
//!
//! Every fallible archive operation reports its failure through the
//! taxonomy in [`result`]: an underlying byte-stream failure, a structural
//! violation of the container format, a feature this implementation does
//! not handle, or a lookup that found no entry.

pub mod result;
