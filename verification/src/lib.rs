//! Conversion engine for the MSBT message-table format: byte-order
//! detection over a binary header, and the arbitration that chooses
//! between a primary and a fallback codec backend.
//!
//! The two codec backends themselves are external collaborators: the
//! caller runs them and hands their outcomes to the constructors of
//! [`MsbtCpp`], which decide — and are verified to decide — exactly as
//! the conversion policy demands.

pub mod endian;
pub mod error;
pub mod msbt;

pub use endian::Endian;
pub use error::MsbtError;
pub use msbt::MsbtCpp;
