//! Inspect a single filesystem path and expose a structured view of its
//! metadata: size, permission bits, ownership, timestamps, a content-type
//! classification, and (for executables) the direct dynamic-library
//! dependencies recorded in the binary itself.
//!
//! The crate holds the metadata model and every decision made over it; the
//! raw operating-system calls that acquire the data (the non-following
//! status call, account-database lookups, the signature-database engine)
//! are performed by the surrounding program, which hands their results in
//! as plain values.

pub mod bytes;
pub mod dylib;
pub mod error;
pub mod file_data;
pub mod lstat;
mod text;

pub use bytes::Bytes;
pub use dylib::read_dynamic_dependencies;
pub use error::Error;
pub use file_data::Classification;
pub use file_data::FileData;
pub use file_data::libmagic_display;
pub use lstat::Lstat;
