//! Verified core of a binding to libsoundio: the decoding of the C library's
//! codes, the decisions taken on what the library returns, and the handling
//! of the application name.

pub mod base;
pub mod enums;
pub mod stream;
pub mod text;
