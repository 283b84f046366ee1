//! Struct validation that reports every violation, not only the first,
//! together with the path at which it occurred.
//!
//! A type says what is wrong with its values by implementing
//! [`validate::Validate`]; [`validate::Unvalidated`] turns a value into a
//! [`validate::Valid`] one if nothing is, and into a [`Report`] of everything
//! that is if not.

pub mod error;
pub mod validate;

pub use error::Report;
